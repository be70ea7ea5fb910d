//! Reading tracks, albums, artists and pagination from the pages of the web interface.

use vstd::prelude::*;
use crate::text::{
    trim_spec, trim_string, first_word_spec, first_word, chars_of, string_of, parse_u32, parse_u64,
    parse_u32_spec, parse_u64_spec, find_seq_spec, find_chars, first_non_digit, find_non_digit,
    slice_chars, remove_char, remove_char_spec,
};
use crate::html::{
    HtmlElement, HtmlRow, ElementView, RowView, select_nested, nested_rows, attr_lookup, attr_value,
    first_cell, row_first_cell,
};
use crate::types::{Track, TrackView, TrackPage, Album, AlbumView, AlbumPage, Artist, ArtistView, ArtistPage, LastFmError};

verus! {

broadcast use vstd::string::group_string_axioms;

/// What `chrono::DateTime::parse_from_rfc3339(s)` gives as seconds since the Unix epoch, or
/// `None` when `s` is not an RFC 3339 date and time.
pub uninterp spec fn rfc3339_seconds(s: Seq<char>) -> Option<i64>;

/// Calls `chrono::DateTime::parse_from_rfc3339` and `timestamp()`.
#[verifier::external_body]
fn parse_rfc3339_seconds(s: &str) -> (res: Option<i64>)
    ensures
        res == rfc3339_seconds(s@),
{
    chrono::DateTime::parse_from_rfc3339(s).ok().map(|t| t.timestamp())
}

fn push_sel(v: &mut Vec<String>, s: &str)
    ensures
        final(v).deep_view() == old(v).deep_view().push(s@),
{
    v.push(String::from_str(s));
    assert(final(v).deep_view() =~= old(v).deep_view().push(s@));
}

/// A number read as `u32` from the first whitespace-separated word of the trimmed text.
pub open spec fn count_from_text(t: Seq<char>) -> Option<u32> {
    match first_word_spec(trim_spec(t)) {
        Some(w) => parse_u32_spec(w),
        None => None,
    }
}

fn count_in_text(t: &str) -> (res: Option<u32>)
    ensures
        res == count_from_text(t@),
{
    let trimmed = trim_string(t);
    let cs = chars_of(trimmed.as_str());
    match first_word(&cs) {
        Some(w) => {
            let ws = string_of(&w);
            parse_u32(ws.as_str())
        },
        None => None,
    }
}

/// The trimmed text of an element, if there is one.
pub open spec fn trimmed_text_of(e: Option<ElementView>) -> Option<Seq<char>> {
    match e {
        Some(x) => Some(trim_spec(x.0)),
        None => None,
    }
}

/// The attribute `name` of an element read as `u64`.
pub open spec fn attr_u64(e: Option<ElementView>, name: Seq<char>) -> Option<u64> {
    match e {
        Some(x) => match attr_lookup(x.1, name) {
            Some(v) => parse_u64_spec(v),
            None => None,
        },
        None => None,
    }
}

/// The attribute `name` of an element, when present and not empty.
pub open spec fn attr_nonempty(e: Option<ElementView>, name: Seq<char>) -> Option<Seq<char>> {
    match e {
        Some(x) => match attr_lookup(x.1, name) {
            Some(v) => if v.len() > 0 { Some(v) } else { None },
            None => None,
        },
        None => None,
    }
}

fn element_attr_u64(e: &Option<HtmlElement>, name: &str) -> (res: Option<u64>)
    ensures
        res == attr_u64(e.deep_view(), name@),
{
    match e {
        Some(x) => match attr_value(&x.1, name) {
            Some(v) => parse_u64(v.as_str()),
            None => None,
        },
        None => None,
    }
}

fn element_attr_nonempty(e: &Option<HtmlElement>, name: &str) -> (res: Option<String>)
    ensures
        res.deep_view() == attr_nonempty(e.deep_view(), name@),
{
    match e {
        Some(x) => match attr_value(&x.1, name) {
            Some(v) => if v.as_str().is_empty() {
                None
            } else {
                Some(v)
            },
            None => None,
        },
        None => None,
    }
}

fn element_trimmed_text(e: &Option<HtmlElement>) -> (res: Option<String>)
    ensures
        res.deep_view() == trimmed_text_of(e.deep_view()),
{
    match e {
        Some(x) => Some(trim_string(x.0.as_str())),
        None => None,
    }
}


/// Whether the list holds the string.
pub fn contains_string(v: &Vec<String>, s: &str) -> (res: bool)
    ensures
        res == v.deep_view().contains(s@),
{
    let target = String::from_str(s);
    let mut i: usize = 0;
    while i < v.len()
        invariant
            i <= v@.len(),
            target@ == s@,
            forall|j: int| 0 <= j < i ==> v.deep_view()[j] != s@,
        decreases v.len() - i,
    {
        if v[i].eq(&target) {
            assert(v.deep_view()[i as int] == s@);
            return true;
        }
        i = i + 1;
    }
    false
}

/// An optional string argument as an optional character sequence.
pub open spec fn opt_str(o: Option<&str>) -> Option<Seq<char>> {
    match o {
        Some(s) => Some(s@),
        None => None,
    }
}

fn opt_string(o: Option<&str>) -> (res: Option<String>)
    ensures
        res.deep_view() == opt_str(o),
{
    match o {
        Some(s) => Some(String::from_str(s)),
        None => None,
    }
}

// ------------------------------------------------------------------------------------------------
// Rows of names and play counts
// ------------------------------------------------------------------------------------------------

/// The cells of a row of names: the name link and the play count.
pub open spec fn name_row_cells() -> Seq<Seq<char>> {
    seq![".chartlist-name a"@, ".chartlist-count-bar-value"@]
}

fn name_cells() -> (res: Vec<String>)
    ensures
        res.deep_view() == name_row_cells(),
        res@.len() == 2,
{
    let mut v: Vec<String> = Vec::new();
    push_sel(&mut v, ".chartlist-name a");
    push_sel(&mut v, ".chartlist-count-bar-value");
    assert(v.deep_view() =~= name_row_cells());
    v
}

/// The play count of a row whose cell `k` is the count element: the number it starts with, or 1.
pub open spec fn row_playcount(row: RowView, k: int) -> u32 {
    match first_cell(row, k) {
        Some(e) => match count_from_text(e.0) {
            Some(c) => c,
            None => 1,
        },
        None => 1,
    }
}

fn extract_playcount_from_row(row: &HtmlRow, k: usize) -> (res: u32)
    requires
        k < row.1@.len(),
    ensures
        res == row_playcount(row.deep_view(), k as int),
{
    match row_first_cell(row, k) {
        Some(e) => match count_in_text(e.0.as_str()) {
            Some(c) => c,
            None => 1,
        },
        None => 1,
    }
}

/// The track of a row of names: its name and play count, the rest left for the caller.
pub open spec fn track_of_row(row: RowView) -> Option<TrackView> {
    match trimmed_text_of(first_cell(row, 0)) {
        Some(name) => Some(TrackView {
            name,
            artist: Seq::empty(),
            playcount: row_playcount(row, 1),
            timestamp: None,
            album: None,
            album_artist: None,
        }),
        None => None,
    }
}

/// The album of a row of names: its name and play count, the rest left for the caller.
pub open spec fn album_of_row(row: RowView) -> Option<AlbumView> {
    match trimmed_text_of(first_cell(row, 0)) {
        Some(name) => Some(AlbumView { name, artist: Seq::empty(), playcount: row_playcount(row, 1), timestamp: None }),
        None => None,
    }
}

/// The message for a row without a name link.
pub open spec fn missing_name_text(item_type: Seq<char>) -> Seq<char> {
    "Missing "@ + item_type + " name"@
}

fn missing_name_error(item_type: &str) -> (res: LastFmError)
    ensures
        res matches LastFmError::Parse(m) && m@ == missing_name_text(item_type@),
{
    let mut m = String::from_str("Missing ");
    m.append(item_type);
    m.append(" name");
    LastFmError::Parse(m)
}

// ------------------------------------------------------------------------------------------------
// Finding play counts by name
// ------------------------------------------------------------------------------------------------

/// The cells of a table row searched for a play count: the music links and the count.
pub open spec fn link_row_cells() -> Seq<Seq<char>> {
    seq!["a[href*=\"/music/\"]"@, ".chartlist-count-bar-value"@]
}

fn link_cells() -> (res: Vec<String>)
    ensures
        res.deep_view() == link_row_cells(),
        res@.len() == 2,
{
    let mut v: Vec<String> = Vec::new();
    push_sel(&mut v, "a[href*=\"/music/\"]");
    push_sel(&mut v, ".chartlist-count-bar-value");
    assert(v.deep_view() =~= link_row_cells());
    v
}

/// The row holds a music link whose trimmed text is `name`.
pub open spec fn row_links_to(row: RowView, name: Seq<char>) -> bool {
    match row.1[0] {
        Some(links) => exists|k: int| 0 <= k < links.len() && trim_spec(#[trigger] links[k].0) == name,
        None => false,
    }
}

/// The number in the row's count element, if it has one.
pub open spec fn row_count(row: RowView) -> Option<u32> {
    match first_cell(row, 1) {
        Some(e) => count_from_text(e.0),
        None => None,
    }
}

/// The count of the first row that links to `name` and holds a count.
pub open spec fn playcount_in_rows(rows: Seq<RowView>, name: Seq<char>) -> Option<u32>
    decreases rows.len(),
{
    if rows.len() == 0 {
        None
    } else if row_links_to(rows[0], name) && row_count(rows[0]) is Some {
        row_count(rows[0])
    } else {
        playcount_in_rows(rows.drop_first(), name)
    }
}

/// The play count of the table row that links to `name` first.
pub open spec fn playcount_for(doc: Seq<char>, name: Seq<char>) -> Option<u32> {
    playcount_in_rows(crate::html::rows_in(doc, "tr"@, link_row_cells()), name)
}

fn row_links_to_name(row: &HtmlRow, name: &str) -> (res: bool)
    requires
        row.1@.len() == 2,
    ensures
        res == row_links_to(row.deep_view(), name@),
{
    match &row.1[0] {
        Some(links) => {
            let ghost lv = links.deep_view();
            assert(row.deep_view().1[0] == Some(lv));
            let mut k: usize = 0;
            while k < links.len()
                invariant
                    k <= links@.len(),
                    lv == links.deep_view(),
                    row.1@.len() == 2,
                    row.deep_view().1.len() == 2,
                    row.deep_view().1[0] == Some(lv),
                    forall|j: int| 0 <= j < k ==> trim_spec(#[trigger] lv[j].0) != name@,
                decreases links.len() - k,
            {
                let t = trim_string(links[k].0.as_str());
                if t.eq(&String::from_str(name)) {
                    assert(trim_spec(lv[k as int].0) == name@);
                    assert(exists|j: int| 0 <= j < lv.len() && trim_spec(#[trigger] lv[j].0) == name@);
                    assert(row.deep_view().1[0]->0 == lv);
                    return true;
                }
                k = k + 1;
            }
            false
        },
        None => false,
    }
}

fn find_playcount(document: &str, name: &str) -> (res: Option<u32>)
    ensures
        res == playcount_for(document@, name@),
{
    let cells = link_cells();
    let rows = crate::html::select_rows(document, "tr", &cells);
    let ghost rv = rows.deep_view();
    let mut i: usize = 0;
    assert(rv.skip(0) =~= rv);
    while i < rows.len()
        invariant
            i <= rows@.len(),
            rv == rows.deep_view(),
            rv == crate::html::rows_in(document@, "tr"@, link_row_cells()),
            forall|j: int| 0 <= j < rows@.len() ==> (#[trigger] rows@[j]).1@.len() == 2,
            playcount_in_rows(rv.skip(i as int), name@) == playcount_in_rows(rv, name@),
        decreases rows.len() - i,
    {
        assert(rv.skip(i as int).drop_first() =~= rv.skip(i + 1));
        assert(rv.skip(i as int)[0] == rv[i as int]);
        assert(rv[i as int] == rows@[i as int].deep_view());
        if row_links_to_name(&rows[i], name) {
            let cell = row_first_cell(&rows[i], 1);
            assert(first_cell(rv[i as int], 1) == cell.deep_view());
            match cell {
                Some(e) => match count_in_text(e.0.as_str()) {
                    Some(c) => {
                        assert(row_count(rv[i as int]) == Some(c));
                        assert(row_links_to(rv[i as int], name@));
                        assert(playcount_in_rows(rv.skip(i as int), name@) == Some(c));
                        return Some(c);
                    },
                    None => {},
                },
                None => {},
            }
        }
        i = i + 1;
    }
    None
}

/// The message when no play count is found for a name.
pub open spec fn no_playcount_text(kind: Seq<char>, name: Seq<char>) -> Seq<char> {
    "Could not find playcount for "@ + kind + ": "@ + name
}

fn no_playcount_error(kind: &str, name: &str) -> (res: LastFmError)
    ensures
        res matches LastFmError::Parse(m) && m@ == no_playcount_text(kind@, name@),
{
    let mut m = String::from_str("Could not find playcount for ");
    m.append(kind);
    m.append(": ");
    m.append(name);
    LastFmError::Parse(m)
}


// ------------------------------------------------------------------------------------------------
// Tracks of an artist or album page
// ------------------------------------------------------------------------------------------------

/// The tracks gathered so far, the names seen so far, and whether the list is full.
pub type GatherState = (Seq<TrackView>, Seq<Seq<char>>, bool);

/// A track of an aggregate listing: no time and no album artist are known.
pub open spec fn listed_track(name: Seq<char>, artist: Seq<char>, playcount: u32, album: Option<Seq<char>>) -> TrackView {
    TrackView { name, artist, playcount, timestamp: None, album, album_artist: None }
}

/// One element carrying `data-track-name`: a new name is kept when its play count is found.
pub open spec fn by_name_step(doc: Seq<char>, artist: Seq<char>, album: Option<Seq<char>>, st: GatherState, e: ElementView) -> GatherState {
    let name = match attr_lookup(e.1, "data-track-name"@) {
        Some(n) => n,
        None => Seq::<char>::empty(),
    };
    if st.2 || name.len() == 0 || st.1.contains(name) {
        st
    } else {
        let tracks = match playcount_for(doc, name) {
            Some(p) => st.0.push(listed_track(name, artist, p, album)),
            None => st.0,
        };
        (tracks, st.1.push(name), tracks.len() >= 50)
    }
}

pub open spec fn fold_by_name(doc: Seq<char>, artist: Seq<char>, album: Option<Seq<char>>, es: Seq<ElementView>, st: GatherState) -> GatherState
    decreases es.len(),
{
    if es.len() == 0 {
        st
    } else {
        by_name_step(doc, artist, album, fold_by_name(doc, artist, album, es.drop_last(), st), es.last())
    }
}

/// One track input: a new name is kept, with play count 0 when none is found.
pub open spec fn by_input_step(doc: Seq<char>, artist: Seq<char>, album: Option<Seq<char>>, st: GatherState, e: ElementView) -> GatherState {
    match attr_lookup(e.1, "value"@) {
        None => st,
        Some(name) => if st.2 || name.len() == 0 || st.1.contains(name) {
            st
        } else {
            let p = match playcount_for(doc, name) {
                Some(p) => p,
                None => 0,
            };
            let tracks = st.0.push(listed_track(name, artist, p, album));
            (tracks, st.1.push(name), tracks.len() >= 50)
        },
    }
}

pub open spec fn fold_by_input(doc: Seq<char>, artist: Seq<char>, album: Option<Seq<char>>, es: Seq<ElementView>, st: GatherState) -> GatherState
    decreases es.len(),
{
    if es.len() == 0 {
        st
    } else {
        by_input_step(doc, artist, album, fold_by_input(doc, artist, album, es.drop_last(), st), es.last())
    }
}

/// One track of a table row: kept when its name is new and there is room.
pub open spec fn by_row_step(st: GatherState, t: TrackView) -> GatherState {
    if !st.1.contains(t.name) && st.0.len() < 50 {
        (st.0.push(t), st.1.push(t.name), st.2)
    } else {
        st
    }
}

pub open spec fn fold_by_row(ts: Seq<TrackView>, st: GatherState) -> GatherState
    decreases ts.len(),
{
    if ts.len() == 0 {
        st
    } else {
        by_row_step(fold_by_row(ts.drop_last(), st), ts.last())
    }
}

/// The tracks of the chart-list rows, with the given artist and album.
pub open spec fn row_tracks(rows: Seq<RowView>, artist: Seq<char>, album: Option<Seq<char>>) -> Seq<TrackView>
    decreases rows.len(),
{
    if rows.len() == 0 {
        Seq::empty()
    } else {
        let prev = row_tracks(rows.drop_last(), artist, album);
        match track_of_row(rows.last()) {
            Some(t) => prev.push(TrackView { artist, album, ..t }),
            None => prev,
        }
    }
}

/// The tracks of the chart-list tables of a page.
pub open spec fn table_tracks(doc: Seq<char>, artist: Seq<char>, album: Option<Seq<char>>) -> Seq<TrackView> {
    row_tracks(chartlist_rows(doc, name_row_cells()), artist, album)
}

/// The tracks of an artist or album page: first the elements named by `data-track-name` (those
/// with a play count), then the track inputs while fewer than 50 are found, then the table rows
/// while fewer than 10 are found; each name once, at most 50.
pub open spec fn extracted_tracks(doc: Seq<char>, artist: Seq<char>, album: Option<Seq<char>>) -> Seq<TrackView> {
    let s1 = fold_by_name(doc, artist, album, crate::html::elements_in(doc, "[data-track-name]"@), (Seq::empty(), Seq::empty(), false));
    let s2 = if s1.0.len() < 50 {
        fold_by_input(doc, artist, album, crate::html::elements_in(doc, "input[name='track']"@), (s1.0, s1.1, false))
    } else {
        s1
    };
    let s3 = if s2.0.len() < 10 { fold_by_row(table_tracks(doc, artist, album), s2) } else { s2 };
    s3.0
}

/// Every track of `ts` has the given artist and album.
pub open spec fn all_of(ts: Seq<TrackView>, artist: Seq<char>, album: Option<Seq<char>>) -> bool {
    forall|i: int| 0 <= i < ts.len() ==> (#[trigger] ts[i]).artist == artist && ts[i].album == album
}

proof fn lemma_all_of_push(ts: Seq<TrackView>, t: TrackView, artist: Seq<char>, album: Option<Seq<char>>)
    requires
        all_of(ts, artist, album),
        t.artist == artist,
        t.album == album,
    ensures
        all_of(ts.push(t), artist, album),
{
    assert forall|i: int| 0 <= i < ts.push(t).len() implies (#[trigger] ts.push(t)[i]).artist == artist
        && ts.push(t)[i].album == album by {
        if i < ts.len() {
            assert(ts.push(t)[i] == ts[i]);
        }
    }
}

/// The tracks of the table rows carry the given artist and album.
pub proof fn lemma_row_tracks_all_of(rows: Seq<RowView>, artist: Seq<char>, album: Option<Seq<char>>)
    ensures
        all_of(row_tracks(rows, artist, album), artist, album),
    decreases rows.len(),
{
    if rows.len() > 0 {
        lemma_row_tracks_all_of(rows.drop_last(), artist, album);
        let prev = row_tracks(rows.drop_last(), artist, album);
        match track_of_row(rows.last()) {
            Some(t) => lemma_all_of_push(prev, TrackView { artist, album, ..t }, artist, album),
            None => {},
        }
    }
}

/// Gathering by `data-track-name` keeps every track with the given artist and album.
pub proof fn lemma_fold_by_name_all_of(doc: Seq<char>, artist: Seq<char>, album: Option<Seq<char>>, es: Seq<ElementView>, st: GatherState)
    requires
        all_of(st.0, artist, album),
    ensures
        all_of(fold_by_name(doc, artist, album, es, st).0, artist, album),
    decreases es.len(),
{
    if es.len() > 0 {
        lemma_fold_by_name_all_of(doc, artist, album, es.drop_last(), st);
        let prev = fold_by_name(doc, artist, album, es.drop_last(), st);
        let name = match attr_lookup(es.last().1, "data-track-name"@) {
            Some(n) => n,
            None => Seq::<char>::empty(),
        };
        if let Some(p) = playcount_for(doc, name) {
            lemma_all_of_push(prev.0, listed_track(name, artist, p, album), artist, album);
        }
    }
}

/// Gathering by track inputs keeps every track with the given artist and album.
pub proof fn lemma_fold_by_input_all_of(doc: Seq<char>, artist: Seq<char>, album: Option<Seq<char>>, es: Seq<ElementView>, st: GatherState)
    requires
        all_of(st.0, artist, album),
    ensures
        all_of(fold_by_input(doc, artist, album, es, st).0, artist, album),
    decreases es.len(),
{
    if es.len() > 0 {
        lemma_fold_by_input_all_of(doc, artist, album, es.drop_last(), st);
        let prev = fold_by_input(doc, artist, album, es.drop_last(), st);
        if let Some(name) = attr_lookup(es.last().1, "value"@) {
            let p = match playcount_for(doc, name) {
                Some(p) => p,
                None => 0,
            };
            lemma_all_of_push(prev.0, listed_track(name, artist, p, album), artist, album);
        }
    }
}

/// Gathering table tracks that carry the artist and album keeps every track with them.
pub proof fn lemma_fold_by_row_all_of(ts: Seq<TrackView>, st: GatherState, artist: Seq<char>, album: Option<Seq<char>>)
    requires
        all_of(ts, artist, album),
        all_of(st.0, artist, album),
    ensures
        all_of(fold_by_row(ts, st).0, artist, album),
    decreases ts.len(),
{
    if ts.len() > 0 {
        assert(all_of(ts.drop_last(), artist, album)) by {
            assert forall|i: int| 0 <= i < ts.drop_last().len() implies (#[trigger] ts.drop_last()[i]).artist == artist
                && ts.drop_last()[i].album == album by {
                assert(ts.drop_last()[i] == ts[i]);
            }
        }
        lemma_fold_by_row_all_of(ts.drop_last(), st, artist, album);
        let prev = fold_by_row(ts.drop_last(), st);
        assert(ts.last() == ts[ts.len() - 1]);
        if !prev.1.contains(ts.last().name) && prev.0.len() < 50 {
            lemma_all_of_push(prev.0, ts.last(), artist, album);
        }
    }
}

/// The tracks gathered have distinct names, all among the names seen, and there are at most 50.
pub open spec fn gathered_ok(st: GatherState) -> bool {
    &&& st.0.len() <= 50
    &&& forall|i: int, j: int| 0 <= i < j < st.0.len() ==> (#[trigger] st.0[i]).name != (#[trigger] st.0[j]).name
    &&& forall|i: int| 0 <= i < st.0.len() ==> st.1.contains((#[trigger] st.0[i]).name)
}

/// As `gathered_ok`, and the list is marked full when it holds 50 tracks.
pub open spec fn gathering_ok(st: GatherState) -> bool {
    gathered_ok(st) && (!st.2 ==> st.0.len() < 50)
}

/// Adding a name not seen before, with or without its track, keeps the gathered tracks in order.
pub proof fn lemma_gather_new_name(st: GatherState, name: Seq<char>, tracks: Seq<TrackView>)
    requires
        gathered_ok(st),
        !st.1.contains(name),
        tracks == st.0 || (st.0.len() < 50 && exists|t: TrackView| t.name == name && tracks == st.0.push(t)),
    ensures
        gathered_ok((tracks, st.1.push(name), tracks.len() >= 50)),
{
    let seen = st.1.push(name);
    assert forall|i: int| 0 <= i < tracks.len() implies seen.contains((#[trigger] tracks[i]).name) by {
        if i < st.0.len() {
            assert(tracks[i] == st.0[i]);
            let k = choose|k: int| 0 <= k < st.1.len() && st.1[k] == st.0[i].name;
            assert(seen[k] == st.1[k]);
        } else {
            assert(seen[st.1.len() as int] == name);
        }
    }
    assert forall|i: int, j: int| 0 <= i < j < tracks.len() implies (#[trigger] tracks[i]).name != (#[trigger] tracks[j]).name by {
        if j < st.0.len() {
            assert(tracks[i] == st.0[i] && tracks[j] == st.0[j]);
        } else {
            assert(tracks[i] == st.0[i]);
            assert(st.1.contains(st.0[i].name));
        }
    }
}

pub proof fn lemma_fold_by_name_ok(doc: Seq<char>, artist: Seq<char>, album: Option<Seq<char>>, es: Seq<ElementView>, st: GatherState)
    requires
        gathering_ok(st),
    ensures
        gathering_ok(fold_by_name(doc, artist, album, es, st)),
    decreases es.len(),
{
    if es.len() > 0 {
        lemma_fold_by_name_ok(doc, artist, album, es.drop_last(), st);
        let prev = fold_by_name(doc, artist, album, es.drop_last(), st);
        let name = match attr_lookup(es.last().1, "data-track-name"@) {
            Some(n) => n,
            None => Seq::<char>::empty(),
        };
        if !(prev.2 || name.len() == 0 || prev.1.contains(name)) {
            match playcount_for(doc, name) {
                Some(p) => {
                    let t = listed_track(name, artist, p, album);
                    lemma_gather_new_name(prev, name, prev.0.push(t));
                },
                None => lemma_gather_new_name(prev, name, prev.0),
            }
        }
    }
}

pub proof fn lemma_fold_by_input_ok(doc: Seq<char>, artist: Seq<char>, album: Option<Seq<char>>, es: Seq<ElementView>, st: GatherState)
    requires
        gathering_ok(st),
    ensures
        gathering_ok(fold_by_input(doc, artist, album, es, st)),
    decreases es.len(),
{
    if es.len() > 0 {
        lemma_fold_by_input_ok(doc, artist, album, es.drop_last(), st);
        let prev = fold_by_input(doc, artist, album, es.drop_last(), st);
        match attr_lookup(es.last().1, "value"@) {
            None => {},
            Some(name) => if !(prev.2 || name.len() == 0 || prev.1.contains(name)) {
                let p = match playcount_for(doc, name) {
                    Some(p) => p,
                    None => 0,
                };
                let t = listed_track(name, artist, p, album);
                lemma_gather_new_name(prev, name, prev.0.push(t));
            },
        }
    }
}

pub proof fn lemma_fold_by_row_ok(ts: Seq<TrackView>, st: GatherState)
    requires
        gathered_ok(st),
    ensures
        gathered_ok(fold_by_row(ts, st)),
    decreases ts.len(),
{
    if ts.len() > 0 {
        lemma_fold_by_row_ok(ts.drop_last(), st);
        let prev = fold_by_row(ts.drop_last(), st);
        let t = ts.last();
        if !prev.1.contains(t.name) && prev.0.len() < 50 {
            lemma_gather_new_name(prev, t.name, prev.0.push(t));
        }
    }
}


/// A copy of a track.
pub fn clone_track(t: &Track) -> (res: Track)
    ensures
        res@ == t@,
{
    Track {
        name: t.name.clone(),
        artist: t.artist.clone(),
        playcount: t.playcount,
        timestamp: t.timestamp,
        album: crate::delete_manifest::clone_opt_string(&t.album),
        album_artist: crate::delete_manifest::clone_opt_string(&t.album_artist),
    }
}


// ------------------------------------------------------------------------------------------------
// Pagination
// ------------------------------------------------------------------------------------------------

/// The total number of pages in a pagination text: the number after the first ` of `, read up to
/// the first character that is not a digit (or, when there is none, the trimmed rest).
pub open spec fn total_pages_from_text(text: Seq<char>) -> Option<u32> {
    match find_seq_spec(text, " of "@) {
        None => None,
        Some(p) => {
            let after = text.skip((p + 4) as int);
            match first_non_digit(after) {
                Some(e) => parse_u32_spec(after.take(e as int)),
                None => parse_u32_spec(trim_spec(after)),
            }
        },
    }
}

fn extract_total_pages_from_pagination(text: &str) -> (res: Option<u32>)
    ensures
        res == total_pages_from_text(text@),
{
    let cs = chars_of(text);
    let of = chars_of(" of ");
    match find_chars(&cs, &of) {
        None => None,
        Some(p) => {
            proof {
                reveal_strlit(" of ");
                lemma_find_seq_found(cs@, of@);
            }
            assert(of@.len() == 4);
            let ghost k = find_seq_spec(cs@, of@)->0;
            assert(crate::text::occurs_at(cs@, of@, k as int));
            assert(k + 4 <= cs@.len());
            assert(cs@.len() == cs.len());
            assert(k <= usize::MAX);
            assert(p == k as usize);
            assert(p == k);
            assert(p + 4 <= cs@.len());
            let after = slice_chars(&cs, p + 4, cs.len());
            assert(after@ =~= cs@.skip(p + 4));
            proof {
                lemma_first_non_digit_bound(after@);
            }
            match find_non_digit(&after) {
                Some(e) => {
                    let num = slice_chars(&after, 0, e);
                    assert(num@ =~= after@.take(e as int));
                    parse_u32(string_of(&num).as_str())
                },
                None => {
                    let rest = string_of(&after);
                    parse_u32(trim_string(rest.as_str()).as_str())
                },
            }
        },
    }
}

pub proof fn lemma_first_non_digit_bound(s: Seq<char>)
    ensures
        first_non_digit(s) matches Some(k) ==> k < s.len(),
    decreases s.len(),
{
    if s.len() > 0 {
        lemma_first_non_digit_bound(s.drop_first());
    }
}

pub proof fn lemma_find_seq_found(h: Seq<char>, n: Seq<char>)
    ensures
        find_seq_spec(h, n) matches Some(k) ==> crate::text::occurs_at(h, n, k as int),
    decreases h.len(),
{
    if !crate::text::occurs_at(h, n, 0) && h.len() > 0 {
        lemma_find_seq_found(h.drop_first(), n);
        if find_seq_spec(h.drop_first(), n) is Some {
            let k = find_seq_spec(h.drop_first(), n)->0;
            crate::text::lemma_occurs_at_skip(h, n, 1, k as int);
            assert(h.skip(1) =~= h.drop_first());
        }
    }
}

/// The selectors of a "next page" link inside the pagination list.
pub open spec fn next_link_cells() -> Seq<Seq<char>> {
    seq!["a[aria-label=\"Next\"]"@, ".pagination-next a"@, "a:contains(\"Next\")"@, ".next a"@]
}

fn next_cells() -> (res: Vec<String>)
    ensures
        res.deep_view() == next_link_cells(),
        res@.len() == 4,
{
    let mut v: Vec<String> = Vec::new();
    push_sel(&mut v, "a[aria-label=\"Next\"]");
    push_sel(&mut v, ".pagination-next a");
    push_sel(&mut v, "a:contains(\"Next\")");
    push_sel(&mut v, ".next a");
    assert(v.deep_view() =~= next_link_cells());
    v
}

/// Some "next page" selector parses and matches inside the pagination element.
pub open spec fn has_next_link(row: RowView) -> bool {
    exists|k: int| 0 <= k < 4 && first_cell(row, k) is Some
}

/// Whether there is a next page and how many pages there are: from the first pagination list,
/// or (no next page, one page) when there is none.
pub open spec fn pagination_info(doc: Seq<char>) -> (bool, Option<u32>) {
    let rows = crate::html::rows_in(doc, ".pagination-list"@, next_link_cells());
    if rows.len() > 0 {
        (has_next_link(rows[0]), total_pages_from_text(rows[0].0.0))
    } else {
        (false, Some(1))
    }
}

// ------------------------------------------------------------------------------------------------
// Albums
// ------------------------------------------------------------------------------------------------

pub type AlbumGatherState = (Seq<AlbumView>, Seq<Seq<char>>, bool);

/// One element carrying `data-album-name`: a new name is kept when its play count is found.
pub open spec fn by_album_step(doc: Seq<char>, artist: Seq<char>, st: AlbumGatherState, e: ElementView) -> AlbumGatherState {
    let name = match attr_lookup(e.1, "data-album-name"@) {
        Some(n) => n,
        None => Seq::<char>::empty(),
    };
    if st.2 || name.len() == 0 || st.1.contains(name) {
        st
    } else {
        let albums = match playcount_for(doc, name) {
            Some(p) => st.0.push(AlbumView { name, artist, playcount: p, timestamp: None }),
            None => st.0,
        };
        (albums, st.1.push(name), albums.len() >= 50)
    }
}

pub open spec fn fold_by_album(doc: Seq<char>, artist: Seq<char>, es: Seq<ElementView>, st: AlbumGatherState) -> AlbumGatherState
    decreases es.len(),
{
    if es.len() == 0 {
        st
    } else {
        by_album_step(doc, artist, fold_by_album(doc, artist, es.drop_last(), st), es.last())
    }
}

/// The albums of the chart-list rows, with the given artist.
pub open spec fn row_albums(rows: Seq<RowView>, artist: Seq<char>) -> Seq<AlbumView>
    decreases rows.len(),
{
    if rows.len() == 0 {
        Seq::empty()
    } else {
        let prev = row_albums(rows.drop_last(), artist);
        match album_of_row(rows.last()) {
            Some(a) => prev.push(AlbumView { artist, ..a }),
            None => prev,
        }
    }
}

/// Every album of `albums` has the given artist.
pub open spec fn all_by(albums: Seq<AlbumView>, artist: Seq<char>) -> bool {
    forall|i: int| 0 <= i < albums.len() ==> (#[trigger] albums[i]).artist == artist
}

proof fn lemma_all_by_push(albums: Seq<AlbumView>, a: AlbumView, artist: Seq<char>)
    requires
        all_by(albums, artist),
        a.artist == artist,
    ensures
        all_by(albums.push(a), artist),
{
    assert forall|i: int| 0 <= i < albums.push(a).len() implies (#[trigger] albums.push(a)[i]).artist == artist by {
        if i < albums.len() {
            assert(albums.push(a)[i] == albums[i]);
        }
    }
}

/// The albums of the table rows carry the given artist.
pub proof fn lemma_row_albums_all_by(rows: Seq<RowView>, artist: Seq<char>)
    ensures
        all_by(row_albums(rows, artist), artist),
    decreases rows.len(),
{
    if rows.len() > 0 {
        lemma_row_albums_all_by(rows.drop_last(), artist);
        match album_of_row(rows.last()) {
            Some(a) => lemma_all_by_push(row_albums(rows.drop_last(), artist), AlbumView { artist, ..a }, artist),
            None => {},
        }
    }
}

/// Gathering by `data-album-name` keeps every album with the given artist.
pub proof fn lemma_fold_by_album_all_by(doc: Seq<char>, artist: Seq<char>, es: Seq<ElementView>, st: AlbumGatherState)
    requires
        all_by(st.0, artist),
    ensures
        all_by(fold_by_album(doc, artist, es, st).0, artist),
    decreases es.len(),
{
    if es.len() > 0 {
        lemma_fold_by_album_all_by(doc, artist, es.drop_last(), st);
        let prev = fold_by_album(doc, artist, es.drop_last(), st);
        let name = match attr_lookup(es.last().1, "data-album-name"@) {
            Some(n) => n,
            None => Seq::<char>::empty(),
        };
        if let Some(p) = playcount_for(doc, name) {
            lemma_all_by_push(prev.0, AlbumView { name, artist, playcount: p, timestamp: None }, artist);
        }
    }
}

/// The albums of an artist's album page: the elements carrying `data-album-name` (each name
/// once, those with a play count, at most 50) when there are any, else the chart-list rows.
pub open spec fn page_albums(doc: Seq<char>, artist: Seq<char>) -> Seq<AlbumView> {
    let es = crate::html::elements_in(doc, "[data-album-name]"@);
    if es.len() > 0 {
        fold_by_album(doc, artist, es, (Seq::empty(), Seq::empty(), false)).0
    } else {
        row_albums(chartlist_rows(doc, name_row_cells()), artist)
    }
}

// ------------------------------------------------------------------------------------------------
// Search results
// ------------------------------------------------------------------------------------------------

/// The cells of a search result row: name, count, artist, album input, album artist input.
pub open spec fn search_row_cells() -> Seq<Seq<char>> {
    seq![".chartlist-name a"@, ".chartlist-count-bar-value"@, ".chartlist-artist a"@, "input[name='album']"@, "input[name='album_artist']"@]
}

fn search_cells() -> (res: Vec<String>)
    ensures
        res.deep_view() == search_row_cells(),
        res@.len() == 5,
{
    let mut v: Vec<String> = Vec::new();
    push_sel(&mut v, ".chartlist-name a");
    push_sel(&mut v, ".chartlist-count-bar-value");
    push_sel(&mut v, ".chartlist-artist a");
    push_sel(&mut v, "input[name='album']");
    push_sel(&mut v, "input[name='album_artist']");
    assert(v.deep_view() =~= search_row_cells());
    v
}

/// The trimmed value of an element's `value` attribute, when not empty.
pub open spec fn trimmed_value(e: Option<ElementView>) -> Option<Seq<char>> {
    match e {
        Some(x) => match attr_lookup(x.1, "value"@) {
            Some(v) => if trim_spec(v).len() > 0 { Some(trim_spec(v)) } else { None },
            None => None,
        },
        None => None,
    }
}

fn element_trimmed_value(e: &Option<HtmlElement>) -> (res: Option<String>)
    ensures
        res.deep_view() == trimmed_value(e.deep_view()),
{
    match e {
        Some(x) => match attr_value(&x.1, "value") {
            Some(v) => {
                let t = trim_string(v.as_str());
                if t.as_str().is_empty() {
                    None
                } else {
                    Some(t)
                }
            },
            None => None,
        },
        None => None,
    }
}

/// The track of a search result row, if it has a name and an artist.
pub open spec fn search_track(row: RowView) -> Option<TrackView> {
    match (trimmed_text_of(first_cell(row, 0)), trimmed_text_of(first_cell(row, 2))) {
        (Some(name), Some(artist)) => Some(TrackView {
            name,
            artist,
            playcount: row_playcount(row, 1),
            timestamp: None,
            album: trimmed_value(first_cell(row, 3)),
            album_artist: trimmed_value(first_cell(row, 4)),
        }),
        _ => None,
    }
}

pub open spec fn search_tracks(rows: Seq<RowView>) -> Seq<TrackView>
    decreases rows.len(),
{
    if rows.len() == 0 {
        Seq::empty()
    } else {
        let prev = search_tracks(rows.drop_last());
        match search_track(rows.last()) {
            Some(t) => prev.push(t),
            None => prev,
        }
    }
}

/// Each track of the search results is the track of one of the rows.
pub proof fn lemma_search_tracks_from_rows(rows: Seq<RowView>)
    ensures
        forall|i: int| #![trigger search_tracks(rows)[i]] 0 <= i < search_tracks(rows).len() ==> exists|j: int|
            0 <= j < rows.len() && search_track(#[trigger] rows[j]) == Some(search_tracks(rows)[i]),
    decreases rows.len(),
{
    if rows.len() > 0 {
        let init = rows.drop_last();
        lemma_search_tracks_from_rows(init);
        let prev = search_tracks(init);
        assert forall|i: int| #![trigger search_tracks(rows)[i]] 0 <= i < search_tracks(rows).len() implies exists|j: int|
            0 <= j < rows.len() && search_track(#[trigger] rows[j]) == Some(search_tracks(rows)[i]) by {
            if i < prev.len() {
                assert(search_tracks(rows)[i] == prev[i]);
                let j = choose|j: int| 0 <= j < init.len() && search_track(#[trigger] init[j]) == Some(prev[i]);
                assert(rows[j] == init[j]);
            } else {
                assert(rows[rows.len() - 1] == rows.last());
            }
        }
    }
}

/// The cell of a search result row is found by its selector: the name is the text of the
/// `.chartlist-name a` link, the artist that of the `.chartlist-artist a` link, the album the
/// trimmed value of `input[name='album']` and the album artist that of
/// `input[name='album_artist']`.
pub open spec fn search_track_by_selectors(row: RowView, t: TrackView) -> bool {
    forall|k: int| #![trigger search_row_cells()[k]] 0 <= k < search_row_cells().len() ==> {
        &&& search_row_cells()[k] == ".chartlist-name a"@ ==> trimmed_text_of(first_cell(row, k)) == Some(t.name)
        &&& search_row_cells()[k] == ".chartlist-artist a"@ ==> trimmed_text_of(first_cell(row, k)) == Some(t.artist)
        &&& search_row_cells()[k] == "input[name='album']"@ ==> t.album == trimmed_value(first_cell(row, k))
        &&& search_row_cells()[k] == "input[name='album_artist']"@ ==> t.album_artist == trimmed_value(first_cell(row, k))
    }
}

/// The track of a search result row takes each of its parts from the cell of the right selector.
pub proof fn lemma_search_track_by_selectors(row: RowView)
    ensures
        search_track(row) matches Some(t) ==> search_track_by_selectors(row, t),
{
    reveal_strlit(".chartlist-name a");
    reveal_strlit(".chartlist-count-bar-value");
    reveal_strlit(".chartlist-artist a");
    reveal_strlit("input[name='album']");
    reveal_strlit("input[name='album_artist']");
    assert(".chartlist-name a"@.len() == 17);
    assert(".chartlist-count-bar-value"@.len() == 26 && ".chartlist-count-bar-value"@[0] == '.');
    assert(".chartlist-artist a"@.len() == 19 && ".chartlist-artist a"@[0] == '.');
    assert("input[name='album']"@.len() == 19 && "input[name='album']"@[0] == 'i');
    assert("input[name='album_artist']"@.len() == 26 && "input[name='album_artist']"@[0] == 'i');
}

/// The album of a search result row, if it has a name and an artist.
pub open spec fn search_album(row: RowView) -> Option<AlbumView> {
    match (trimmed_text_of(first_cell(row, 0)), trimmed_text_of(first_cell(row, 2))) {
        (Some(name), Some(artist)) => Some(AlbumView { name, artist, playcount: row_playcount(row, 1), timestamp: None }),
        _ => None,
    }
}

pub open spec fn search_albums(rows: Seq<RowView>) -> Seq<AlbumView>
    decreases rows.len(),
{
    if rows.len() == 0 {
        Seq::empty()
    } else {
        let prev = search_albums(rows.drop_last());
        match search_album(rows.last()) {
            Some(a) => prev.push(a),
            None => prev,
        }
    }
}

// ------------------------------------------------------------------------------------------------
// Artists
// ------------------------------------------------------------------------------------------------

/// The cells of an artist row: the name link and the count bar.
pub open spec fn artist_row_cells() -> Seq<Seq<char>> {
    seq!["td.chartlist-name a"@, ".chartlist-count-bar"@]
}

fn artist_cells() -> (res: Vec<String>)
    ensures
        res.deep_view() == artist_row_cells(),
        res@.len() == 2,
{
    let mut v: Vec<String> = Vec::new();
    push_sel(&mut v, "td.chartlist-name a");
    push_sel(&mut v, ".chartlist-count-bar");
    assert(v.deep_view() =~= artist_row_cells());
    v
}

/// A count text read as a number: commas removed, the first word parsed as `u32`.
pub open spec fn number_from_count_text(t: Seq<char>) -> Option<u32> {
    match first_word_spec(remove_char_spec(t, ',')) {
        Some(w) => parse_u32_spec(w),
        None => None,
    }
}

fn number_in_count_text(t: &str) -> (res: Option<u32>)
    ensures
        res == number_from_count_text(t@),
{
    let cleaned = remove_char(t, ',');
    let cs = chars_of(cleaned.as_str());
    match first_word(&cs) {
        Some(w) => parse_u32(string_of(&w).as_str()),
        None => None,
    }
}

/// The artist of a row, if it has a name link; the play count is 0 when none is readable.
pub open spec fn artist_of_row(row: RowView) -> Option<ArtistView> {
    match trimmed_text_of(first_cell(row, 0)) {
        Some(name) => Some(ArtistView {
            name,
            playcount: match first_cell(row, 1) {
                Some(e) => match number_from_count_text(e.0) {
                    Some(c) => c,
                    None => 0,
                },
                None => 0,
            },
            timestamp: None,
        }),
        None => None,
    }
}

pub open spec fn row_artists(rows: Seq<RowView>) -> Seq<ArtistView>
    decreases rows.len(),
{
    if rows.len() == 0 {
        Seq::empty()
    } else {
        let prev = row_artists(rows.drop_last());
        match artist_of_row(rows.last()) {
            Some(a) => prev.push(a),
            None => prev,
        }
    }
}

// ------------------------------------------------------------------------------------------------
// Recent scrobbles
// ------------------------------------------------------------------------------------------------

/// The cells read from a row of recent scrobbles: name, artist, three timestamp sources, album
/// and album artist.
pub open spec fn recent_row_cells() -> Seq<Seq<char>> {
    seq![
        ".chartlist-name a"@,
        ".chartlist-artist a"@,
        "input[name='timestamp']"@,
        "form[data-edit-scrobble] input[name='timestamp']"@,
        "time"@,
        "form[data-edit-scrobble] input[name='album_name']"@,
        "form[data-edit-scrobble] input[name='album_artist_name']"@,
    ]
}

fn recent_cells() -> (res: Vec<String>)
    ensures
        res.deep_view() == recent_row_cells(),
        res@.len() == 7,
{
    let mut v: Vec<String> = Vec::new();
    push_sel(&mut v, ".chartlist-name a");
    push_sel(&mut v, ".chartlist-artist a");
    push_sel(&mut v, "input[name='timestamp']");
    push_sel(&mut v, "form[data-edit-scrobble] input[name='timestamp']");
    push_sel(&mut v, "time");
    push_sel(&mut v, "form[data-edit-scrobble] input[name='album_name']");
    push_sel(&mut v, "form[data-edit-scrobble] input[name='album_artist_name']");
    assert(v.deep_view() =~= recent_row_cells());
    v
}

/// The time of a scrobble row: the row's `data-timestamp`, else the value of a timestamp input,
/// else that of the edit form's timestamp input, else the `datetime` of a `time` element.
pub open spec fn row_timestamp(row: RowView) -> Option<u64> {
    match attr_u64(Some(row.0), "data-timestamp"@) {
        Some(t) => Some(t),
        None => match attr_u64(first_cell(row, 2), "value"@) {
            Some(t) => Some(t),
            None => match attr_u64(first_cell(row, 3), "value"@) {
                Some(t) => Some(t),
                None => match first_cell(row, 4) {
                    Some(e) => match attr_lookup(e.1, "datetime"@) {
                        Some(d) => match rfc3339_seconds(d) {
                            Some(secs) => Some(secs as u64),
                            None => None,
                        },
                        None => None,
                    },
                    None => None,
                },
            },
        },
    }
}

/// The scrobble described by a row of recent scrobbles, if it names a track and an artist.
pub open spec fn recent_track(row: RowView) -> Option<TrackView> {
    match (trimmed_text_of(first_cell(row, 0)), trimmed_text_of(first_cell(row, 1))) {
        (Some(name), Some(artist)) => Some(TrackView {
            name,
            artist,
            playcount: 1,
            timestamp: row_timestamp(row),
            album: attr_nonempty(first_cell(row, 5), "value"@),
            album_artist: attr_nonempty(first_cell(row, 6), "value"@),
        }),
        _ => None,
    }
}

/// The scrobbles of all rows that describe one, in order.
pub open spec fn recent_tracks(rows: Seq<RowView>) -> Seq<TrackView>
    decreases rows.len(),
{
    if rows.len() == 0 {
        Seq::empty()
    } else {
        let prev = recent_tracks(rows.drop_last());
        match recent_track(rows.last()) {
            Some(t) => prev.push(t),
            None => prev,
        }
    }
}

/// The rows of the chart-list tables of a page.
pub open spec fn chartlist_rows(doc: Seq<char>, cells: Seq<Seq<char>>) -> Seq<RowView> {
    nested_rows(doc, "table.chartlist"@, "tbody tr"@, cells)
}

fn extract_scrobble_timestamp(row: &HtmlRow) -> (res: Option<u64>)
    requires
        row.1@.len() == 7,
    ensures
        res == row_timestamp(row.deep_view()),
{
    let own = Some(crate::html::clone_element(&row.0));
    match element_attr_u64(&own, "data-timestamp") {
        Some(t) => return Some(t),
        None => {},
    }
    match element_attr_u64(&row_first_cell(row, 2), "value") {
        Some(t) => return Some(t),
        None => {},
    }
    match element_attr_u64(&row_first_cell(row, 3), "value") {
        Some(t) => return Some(t),
        None => {},
    }
    match row_first_cell(row, 4) {
        Some(e) => match attr_value(&e.1, "datetime") {
            Some(d) => match parse_rfc3339_seconds(d.as_str()) {
                Some(secs) => Some(secs as u64),
                None => None,
            },
            None => None,
        },
        None => None,
    }
}

/// The album in the edit form of a row of recent scrobbles, when not empty.
fn extract_scrobble_album(row: &HtmlRow) -> (res: Option<String>)
    requires
        row.1@.len() == 7,
    ensures
        res.deep_view() == attr_nonempty(first_cell(row.deep_view(), 5), "value"@),
{
    element_attr_nonempty(&row_first_cell(row, 5), "value")
}

/// The album artist in the edit form of a row of recent scrobbles, when not empty.
fn extract_scrobble_album_artist(row: &HtmlRow) -> (res: Option<String>)
    requires
        row.1@.len() == 7,
    ensures
        res.deep_view() == attr_nonempty(first_cell(row.deep_view(), 6), "value"@),
{
    element_attr_nonempty(&row_first_cell(row, 6), "value")
}

fn parse_recent_scrobble_row(row: &HtmlRow) -> (res: Option<Track>)
    requires
        row.1@.len() == 7,
    ensures
        res.deep_view() == recent_track(row.deep_view()),
{
    let name = element_trimmed_text(&row_first_cell(row, 0));
    let artist = element_trimmed_text(&row_first_cell(row, 1));
    match (name, artist) {
        (Some(name), Some(artist)) => Some(Track {
            name,
            artist,
            playcount: 1,
            timestamp: extract_scrobble_timestamp(row),
            album: extract_scrobble_album(row),
            album_artist: extract_scrobble_album_artist(row),
        }),
        _ => None,
    }
}

/// The trimmed album of a search result row, when not empty.
fn extract_album_from_search_row(row: &HtmlRow) -> (res: Option<String>)
    requires
        row.1@.len() == 5,
    ensures
        res.deep_view() == trimmed_value(first_cell(row.deep_view(), 3)),
{
    element_trimmed_value(&row_first_cell(row, 3))
}

/// The trimmed album artist of a search result row, when not empty.
fn extract_album_artist_from_search_row(row: &HtmlRow) -> (res: Option<String>)
    requires
        row.1@.len() == 5,
    ensures
        res.deep_view() == trimmed_value(first_cell(row.deep_view(), 4)),
{
    element_trimmed_value(&row_first_cell(row, 4))
}

/// The track of a search result row, if it has a name and an artist.
fn parse_search_track_row(row: &HtmlRow) -> (res: Option<Track>)
    requires
        row.1@.len() == 5,
    ensures
        res.deep_view() == search_track(row.deep_view()),
{
    let name = element_trimmed_text(&row_first_cell(row, 0));
    let artist = element_trimmed_text(&row_first_cell(row, 2));
    match (name, artist) {
        (Some(name), Some(artist)) => Some(Track {
            name,
            artist,
            playcount: extract_playcount_from_row(row, 1),
            timestamp: None,
            album: extract_album_from_search_row(row),
            album_artist: extract_album_artist_from_search_row(row),
        }),
        _ => None,
    }
}

/// The album of a search result row, if it has a name and an artist.
fn parse_search_album_row(row: &HtmlRow) -> (res: Option<Album>)
    requires
        row.1@.len() == 5,
    ensures
        res.deep_view() == search_album(row.deep_view()),
{
    let name = element_trimmed_text(&row_first_cell(row, 0));
    let artist = element_trimmed_text(&row_first_cell(row, 2));
    match (name, artist) {
        (Some(name), Some(artist)) => Some(Album { name, artist, playcount: extract_playcount_from_row(row, 1), timestamp: None }),
        _ => None,
    }
}

/// The artist of a row of the artists page, if it has a name; its count is 0 when unreadable.
fn parse_artist_row(row: &HtmlRow) -> (res: Option<Artist>)
    requires
        row.1@.len() == 2,
    ensures
        res.deep_view() == artist_of_row(row.deep_view()),
{
    match element_trimmed_text(&row_first_cell(row, 0)) {
        Some(name) => {
            let playcount = match row_first_cell(row, 1) {
                Some(e) => match number_in_count_text(e.0.as_str()) {
                    Some(c) => c,
                    None => 0,
                },
                None => 0,
            };
            Some(Artist { name, playcount, timestamp: None })
        },
        None => None,
    }
}

/// What holds of the views of a list of tracks holds of the tracks.
proof fn lemma_track_views_carry(v: Vec<Track>, artist: Seq<char>, album: Option<Seq<char>>)
    requires
        forall|i: int| 0 <= i < v.deep_view().len() ==> (#[trigger] v.deep_view()[i]).artist == artist
            && v.deep_view()[i].album == album,
    ensures
        forall|i: int| 0 <= i < v@.len() ==> (#[trigger] v@[i]).artist@ == artist && v@[i].album.deep_view() == album,
{
    assert forall|i: int| 0 <= i < v@.len() implies (#[trigger] v@[i]).artist@ == artist && v@[i].album.deep_view() == album by {
        assert(v.deep_view()[i] == v@[i].deep_view());
    }
}

/// What holds of the views of a list of albums holds of the albums.
proof fn lemma_album_views_by(v: Vec<Album>, artist: Seq<char>)
    requires
        forall|i: int| 0 <= i < v.deep_view().len() ==> (#[trigger] v.deep_view()[i]).artist == artist,
    ensures
        forall|i: int| 0 <= i < v@.len() ==> (#[trigger] v@[i]).artist@ == artist,
{
    assert forall|i: int| 0 <= i < v@.len() implies (#[trigger] v@[i]).artist@ == artist by {
        assert(v.deep_view()[i] == v@[i].deep_view());
    }
}

/// Reads the pages of the web interface.
#[derive(Debug, Clone, Copy)]
pub struct LastFmParser;

impl LastFmParser {
    /// A parser.
    pub fn new() -> (res: Self) {
        LastFmParser
    }

    /// The scrobbles listed on a page of recent scrobbles, in order; rows without a track name
    /// or an artist are skipped.
    pub fn parse_recent_scrobbles(&self, document: &str) -> (res: Result<Vec<Track>, LastFmError>)
        ensures
            res matches Ok(v) && v.deep_view() == recent_tracks(chartlist_rows(document@, recent_row_cells())),
    {
        let cells = recent_cells();
        let rows = select_nested(document, "table.chartlist", "tbody tr", &cells);
        let ghost rv = rows.deep_view();
        let mut tracks: Vec<Track> = Vec::new();
        let mut i: usize = 0;
        while i < rows.len()
            invariant
                i <= rows@.len(),
                rv == rows.deep_view(),
                forall|j: int| 0 <= j < rows@.len() ==> (#[trigger] rows@[j]).1@.len() == 7,
                tracks.deep_view() == recent_tracks(rv.take(i as int)),
            decreases rows.len() - i,
        {
            assert(rv.take(i + 1).drop_last() =~= rv.take(i as int));
            let ghost before = tracks.deep_view();
            match parse_recent_scrobble_row(&rows[i]) {
                Some(t) => {
                    tracks.push(t);
                    assert(tracks.deep_view() =~= before.push(t.deep_view()));
                },
                None => {},
            }
            i = i + 1;
        }
        assert(rv.take(i as int) =~= rv);
        Ok(tracks)
    }
    /// The track of a row of names (cells: name link, play count): its trimmed name and its play
    /// count, 1 when none is readable; the artist is left empty for the caller.
    pub fn parse_track_row(&self, row: &HtmlRow) -> (res: Result<Track, LastFmError>)
        requires
            row.1@.len() == 2,
        ensures
            match track_of_row(row.deep_view()) {
                Some(t) => res matches Ok(r) && r@ == t,
                None => res matches Err(LastFmError::Parse(m)) && m@ == missing_name_text("track"@),
            },
    {
        match element_trimmed_text(&row_first_cell(row, 0)) {
            Some(name) => Ok(Track {
                name,
                artist: String::new(),
                playcount: extract_playcount_from_row(row, 1),
                timestamp: None,
                album: None,
                album_artist: None,
            }),
            None => Err(missing_name_error("track")),
        }
    }

    /// The album of a row of names (cells: name link, play count): its trimmed name and its play
    /// count, 1 when none is readable; the artist is left empty for the caller.
    pub fn parse_album_row(&self, row: &HtmlRow) -> (res: Result<Album, LastFmError>)
        requires
            row.1@.len() == 2,
        ensures
            match album_of_row(row.deep_view()) {
                Some(a) => res matches Ok(r) && r@ == a,
                None => res matches Err(LastFmError::Parse(m)) && m@ == missing_name_text("album"@),
            },
    {
        match element_trimmed_text(&row_first_cell(row, 0)) {
            Some(name) => Ok(Album { name, artist: String::new(), playcount: extract_playcount_from_row(row, 1), timestamp: None }),
            None => Err(missing_name_error("album")),
        }
    }

    /// The play count in the table row that links to the track first.
    pub fn find_playcount_for_track(&self, document: &str, track_name: &str) -> (res: Result<u32, LastFmError>)
        ensures
            match playcount_for(document@, track_name@) {
                Some(c) => res == Ok::<u32, LastFmError>(c),
                None => res matches Err(LastFmError::Parse(m)) && m@ == no_playcount_text("track"@, track_name@),
            },
    {
        match find_playcount(document, track_name) {
            Some(c) => Ok(c),
            None => Err(no_playcount_error("track", track_name)),
        }
    }

    /// The play count in the table row that links to the album first.
    pub fn find_playcount_for_album(&self, document: &str, album_name: &str) -> (res: Result<u32, LastFmError>)
        ensures
            match playcount_for(document@, album_name@) {
                Some(c) => res == Ok::<u32, LastFmError>(c),
                None => res matches Err(LastFmError::Parse(m)) && m@ == no_playcount_text("album"@, album_name@),
            },
    {
        match find_playcount(document, album_name) {
            Some(c) => Ok(c),
            None => Err(no_playcount_error("album", album_name)),
        }
    }

    /// No page carries scrobble times for aggregated tracks: always `None`.
    pub fn find_timestamp_for_track(&self, document: &str, track_name: &str) -> (res: Option<u64>)
        ensures
            res is None,
    {
        None
    }

    /// No page carries scrobble times for aggregated albums: always `None`.
    pub fn find_timestamp_for_album(&self, document: &str, album_name: &str) -> (res: Option<u64>)
        ensures
            res is None,
    {
        None
    }
    fn parse_tracks_from_rows(&self, document: &str, artist: &str, album: Option<&str>) -> (res: Result<Vec<Track>, LastFmError>)
        ensures
            res matches Ok(v) && v.deep_view() == table_tracks(document@, artist@, opt_str(album)),
            res matches Ok(v) ==> forall|i: int| 0 <= i < v@.len() ==> (#[trigger] v@[i]).artist@ == artist@
                && v@[i].album.deep_view() == opt_str(album),
    {
        proof {
            crate::laws::law_page_tracks_carry_artist_and_album(document@, artist@, opt_str(album));
        }
        let cells = name_cells();
        let rows = select_nested(document, "table.chartlist", "tbody tr", &cells);
        let ghost rv = rows.deep_view();
        let mut tracks: Vec<Track> = Vec::new();
        let mut i: usize = 0;
        while i < rows.len()
            invariant
                i <= rows@.len(),
                rv == rows.deep_view(),
                forall|j: int| 0 <= j < rows@.len() ==> (#[trigger] rows@[j]).1@.len() == 2,
                tracks.deep_view() == row_tracks(rv.take(i as int), artist@, opt_str(album)),
            decreases rows.len() - i,
        {
            assert(rv.take(i + 1).drop_last() =~= rv.take(i as int));
            assert(rv[i as int] == rows@[i as int].deep_view());
            let ghost before = tracks.deep_view();
            match self.parse_track_row(&rows[i]) {
                Ok(t) => {
                    let mut t = t;
                    t.artist = String::from_str(artist);
                    t.album = opt_string(album);
                    tracks.push(t);
                    assert(tracks.deep_view() =~= before.push(t.deep_view()));
                },
                Err(_) => {},
            }
            i = i + 1;
        }
        assert(rv.take(i as int) =~= rv);
        proof {
            lemma_track_views_carry(tracks, artist@, opt_str(album));
        }
        Ok(tracks)
    }

    /// The tracks listed on an artist or album page, each name once and at most 50: first the
    /// elements carrying `data-track-name` whose play count is found, then, while fewer than 50,
    /// the track inputs (play count 0 when none is found), then, while fewer than 10, the rows of
    /// the chart-list tables.
    pub fn extract_tracks_from_document(&self, document: &str, artist: &str, album: Option<&str>) -> (res: Result<Vec<Track>, LastFmError>)
        ensures
            res matches Ok(v) && v.deep_view() == extracted_tracks(document@, artist@, opt_str(album)),
            res matches Ok(v) ==> forall|i: int| 0 <= i < v@.len() ==> (#[trigger] v@[i]).artist@ == artist@
                && v@[i].album.deep_view() == opt_str(album),
    {
        proof {
            crate::laws::law_page_tracks_carry_artist_and_album(document@, artist@, opt_str(album));
        }
        let ghost al = opt_str(album);
        let mut tracks: Vec<Track> = Vec::new();
        let mut seen: Vec<String> = Vec::new();
        let mut done = false;
        let named = crate::html::select_all(document, "[data-track-name]");
        let ghost nv = named.deep_view();
        let mut i: usize = 0;
        while i < named.len()
            invariant
                i <= named@.len(),
                nv == named.deep_view(),
                al == opt_str(album),
                (tracks.deep_view(), seen.deep_view(), done) == fold_by_name(document@, artist@, al, nv.take(i as int), (Seq::empty(), Seq::empty(), false)),
            decreases named.len() - i,
        {
            assert(nv.take(i + 1).drop_last() =~= nv.take(i as int));
            assert(nv.take(i + 1).last() == nv[i as int]);
            assert(nv[i as int] == named@[i as int].deep_view());
            assert(nv[i as int].1 == named@[i as int].1.deep_view());
            let ghost t0 = tracks.deep_view();
            let ghost s0 = seen.deep_view();
            let name = match attr_value(&named[i].1, "data-track-name") {
                Some(n) => n,
                None => String::new(),
            };
            if !done && !name.as_str().is_empty() && !contains_string(&seen, name.as_str()) {
                seen.push(name.clone());
                assert(seen.deep_view() =~= s0.push(name@));
                match find_playcount(document, name.as_str()) {
                    Some(p) => {
                        let t = Track {
                            name: name.clone(),
                            artist: String::from_str(artist),
                            playcount: p,
                            timestamp: self.find_timestamp_for_track(document, name.as_str()),
                            album: opt_string(album),
                            album_artist: None,
                        };

                        tracks.push(t);
                        assert(tracks.deep_view() =~= t0.push(t.deep_view()));
                    },
                    None => {},
                }
                done = tracks.len() >= 50;
            }
            i = i + 1;
        }
        assert(nv.take(i as int) =~= nv);
        let ghost s1 = (tracks.deep_view(), seen.deep_view(), done);
        if tracks.len() < 50 {
            done = false;
            let inputs = crate::html::select_all(document, "input[name='track']");
            let ghost iv = inputs.deep_view();
            let mut i: usize = 0;
            while i < inputs.len()
                invariant
                    i <= inputs@.len(),
                    iv == inputs.deep_view(),
                    al == opt_str(album),
                    (tracks.deep_view(), seen.deep_view(), done) == fold_by_input(document@, artist@, al, iv.take(i as int), (s1.0, s1.1, false)),
                decreases inputs.len() - i,
            {
                assert(iv.take(i + 1).drop_last() =~= iv.take(i as int));
                assert(iv.take(i + 1).last() == iv[i as int]);
                assert(iv[i as int] == inputs@[i as int].deep_view());
                assert(iv[i as int].1 == inputs@[i as int].1.deep_view());
                let ghost t0 = tracks.deep_view();
                let ghost s0 = seen.deep_view();
                match attr_value(&inputs[i].1, "value") {
                    Some(name) => {
                        if !done && !name.as_str().is_empty() && !contains_string(&seen, name.as_str()) {
                            seen.push(name.clone());
                            assert(seen.deep_view() =~= s0.push(name@));
                            let p = match find_playcount(document, name.as_str()) {
                                Some(p) => p,
                                None => 0,
                            };
                            let t = Track {
                                name: name.clone(),
                                artist: String::from_str(artist),
                                playcount: p,
                                timestamp: self.find_timestamp_for_track(document, name.as_str()),
                                album: opt_string(album),
                                album_artist: None,
                            };
                            tracks.push(t);
                            assert(tracks.deep_view() =~= t0.push(t.deep_view()));
                            done = tracks.len() >= 50;
                        }
                    },
                    None => {},
                }
                i = i + 1;
            }
            assert(iv.take(i as int) =~= iv);
        }
        let ghost s2 = (tracks.deep_view(), seen.deep_view(), done);
        if tracks.len() < 10 {
            let table = match self.parse_tracks_from_rows(document, artist, album) {
                Ok(v) => v,
                Err(_) => Vec::new(),
            };
            let ghost tv = table.deep_view();
            let mut i: usize = 0;
            while i < table.len()
                invariant
                    i <= table@.len(),
                    tv == table.deep_view(),
                    (tracks.deep_view(), seen.deep_view(), done) == fold_by_row(tv.take(i as int), s2),
                decreases table.len() - i,
            {
                assert(tv.take(i + 1).drop_last() =~= tv.take(i as int));
                assert(tv[i as int] == table@[i as int].deep_view());
                let ghost t0 = tracks.deep_view();
                let ghost s0 = seen.deep_view();
                if !contains_string(&seen, table[i].name.as_str()) && tracks.len() < 50 {
                    seen.push(table[i].name.clone());
                    assert(seen.deep_view() =~= s0.push(tv[i as int].name));
                    let t = clone_track(&table[i]);
                    tracks.push(t);
                    assert(tracks.deep_view() =~= t0.push(t.deep_view()));
                }
                i = i + 1;
            }
            assert(tv.take(i as int) =~= tv);
        }
        proof {
            lemma_track_views_carry(tracks, artist@, opt_str(album));
        }
        Ok(tracks)
    }

    /// Whether there is a next page, and the number of pages: read from the first pagination
    /// list; without one, there is no next page and there is one page.
    pub fn parse_pagination(&self, document: &str, current_page: u32) -> (res: Result<(bool, Option<u32>), LastFmError>)
        ensures
            res == Ok::<(bool, Option<u32>), LastFmError>(pagination_info(document@)),
    {
        let cells = next_cells();
        let rows = crate::html::select_rows(document, ".pagination-list", &cells);
        if rows.len() > 0 {
            let ghost r0 = rows.deep_view()[0];
            assert(r0 == rows@[0].deep_view());
            let mut has_next = false;
            let mut k: usize = 0;
            while k < 4
                invariant
                    k <= 4,
                    rows@.len() > 0,
                    rows@[0].1@.len() == 4,
                    r0 == rows@[0].deep_view(),
                    has_next == exists|j: int| 0 <= j < k && first_cell(r0, j) is Some,
                decreases 4 - k,
            {
                let c = row_first_cell(&rows[0], k);
                if c.is_some() {
                    has_next = true;
                }
                k = k + 1;
            }
            let total = extract_total_pages_from_pagination(rows[0].0.0.as_str());
            Ok((has_next, total))
        } else {
            Ok((false, Some(1)))
        }
    }

    /// A page of an artist's or album's tracks.
    pub fn parse_tracks_page(&self, document: &str, page_number: u32, artist: &str, album: Option<&str>) -> (res: Result<TrackPage, LastFmError>)
        ensures
            res matches Ok(p) && p.tracks.deep_view() == extracted_tracks(document@, artist@, opt_str(album))
                && p.page_number == page_number && (p.has_next_page, p.total_pages) == pagination_info(document@),
            res matches Ok(p) ==> forall|i: int| 0 <= i < p.tracks@.len() ==> (#[trigger] p.tracks@[i]).artist@ == artist@
                && p.tracks@[i].album.deep_view() == opt_str(album),
    {
        proof {
            crate::laws::law_page_tracks_carry_artist_and_album(document@, artist@, opt_str(album));
        }
        let tracks = match self.extract_tracks_from_document(document, artist, album) {
            Ok(t) => t,
            Err(e) => return Err(e),
        };
        let (has_next_page, total_pages) = match self.parse_pagination(document, page_number) {
            Ok(p) => p,
            Err(e) => return Err(e),
        };
        Ok(TrackPage { tracks, page_number, has_next_page, total_pages })
    }

    fn parse_albums_from_rows(&self, document: &str, artist: &str) -> (res: Result<Vec<Album>, LastFmError>)
        ensures
            res matches Ok(v) && v.deep_view() == row_albums(chartlist_rows(document@, name_row_cells()), artist@),
            res matches Ok(v) ==> forall|i: int| 0 <= i < v@.len() ==> (#[trigger] v@[i]).artist@ == artist@,
    {
        proof {
            crate::laws::law_page_albums_have_artist(document@, artist@);
        }
        let cells = name_cells();
        let rows = select_nested(document, "table.chartlist", "tbody tr", &cells);
        let ghost rv = rows.deep_view();
        let mut albums: Vec<Album> = Vec::new();
        let mut i: usize = 0;
        while i < rows.len()
            invariant
                i <= rows@.len(),
                rv == rows.deep_view(),
                forall|j: int| 0 <= j < rows@.len() ==> (#[trigger] rows@[j]).1@.len() == 2,
                albums.deep_view() == row_albums(rv.take(i as int), artist@),
            decreases rows.len() - i,
        {
            assert(rv.take(i + 1).drop_last() =~= rv.take(i as int));
            assert(rv[i as int] == rows@[i as int].deep_view());
            let ghost before = albums.deep_view();
            match self.parse_album_row(&rows[i]) {
                Ok(a) => {
                    let mut a = a;
                    a.artist = String::from_str(artist);
                    albums.push(a);
                    assert(albums.deep_view() =~= before.push(a.deep_view()));
                },
                Err(_) => {},
            }
            i = i + 1;
        }
        assert(rv.take(i as int) =~= rv);
        proof {
            lemma_album_views_by(albums, artist@);
        }
        Ok(albums)
    }

    /// A page of an artist's albums: the elements carrying `data-album-name` when there are any
    /// (each name once, those whose play count is found, at most 50), else the chart-list rows.
    pub fn parse_albums_page(&self, document: &str, page_number: u32, artist: &str) -> (res: Result<AlbumPage, LastFmError>)
        ensures
            res matches Ok(p) && p.albums.deep_view() == page_albums(document@, artist@)
                && p.page_number == page_number && (p.has_next_page, p.total_pages) == pagination_info(document@),
            res matches Ok(p) ==> forall|i: int| 0 <= i < p.albums@.len() ==> (#[trigger] p.albums@[i]).artist@ == artist@,
    {
        proof {
            crate::laws::law_page_albums_have_artist(document@, artist@);
        }
        let named = crate::html::select_all(document, "[data-album-name]");
        let ghost nv = named.deep_view();
        let mut albums: Vec<Album> = Vec::new();
        if named.len() > 0 {
            let mut seen: Vec<String> = Vec::new();
            let mut done = false;
            let mut i: usize = 0;
            while i < named.len()
                invariant
                    i <= named@.len(),
                    nv == named.deep_view(),
                    (albums.deep_view(), seen.deep_view(), done) == fold_by_album(document@, artist@, nv.take(i as int), (Seq::empty(), Seq::empty(), false)),
                decreases named.len() - i,
            {
                assert(nv.take(i + 1).drop_last() =~= nv.take(i as int));
                assert(nv.take(i + 1).last() == nv[i as int]);
                assert(nv[i as int] == named@[i as int].deep_view());
                assert(nv[i as int].1 == named@[i as int].1.deep_view());
                let ghost a0 = albums.deep_view();
                let ghost s0 = seen.deep_view();
                let name = match attr_value(&named[i].1, "data-album-name") {
                    Some(n) => n,
                    None => String::new(),
                };
                if !done && !name.as_str().is_empty() && !contains_string(&seen, name.as_str()) {
                    seen.push(name.clone());
                    assert(seen.deep_view() =~= s0.push(name@));
                    match find_playcount(document, name.as_str()) {
                        Some(p) => {
                            let a = Album {
                                name: name.clone(),
                                artist: String::from_str(artist),
                                playcount: p,
                                timestamp: self.find_timestamp_for_album(document, name.as_str()),
                            };
                            albums.push(a);
                            assert(albums.deep_view() =~= a0.push(a.deep_view()));
                        },
                        None => {},
                    }
                    done = albums.len() >= 50;
                }
                i = i + 1;
            }
            assert(nv.take(i as int) =~= nv);
        } else {
            albums = match self.parse_albums_from_rows(document, artist) {
                Ok(v) => v,
                Err(e) => return Err(e),
            };
        }
        let (has_next_page, total_pages) = match self.parse_pagination(document, page_number) {
            Ok(p) => p,
            Err(e) => return Err(e),
        };
        proof {
            lemma_album_views_by(albums, artist@);
        }
        Ok(AlbumPage { albums, page_number, has_next_page, total_pages })
    }

    /// The tracks of a track search result page, in order; rows without a name or an artist are
    /// skipped.
    pub fn parse_track_search_results(&self, document: &str) -> (res: Result<Vec<Track>, LastFmError>)
        ensures
            res matches Ok(v) && v.deep_view() == search_tracks(chartlist_rows(document@, search_row_cells())),
    {
        let cells = search_cells();
        let rows = select_nested(document, "table.chartlist", "tbody tr", &cells);
        let ghost rv = rows.deep_view();
        let mut tracks: Vec<Track> = Vec::new();
        let mut i: usize = 0;
        while i < rows.len()
            invariant
                i <= rows@.len(),
                rv == rows.deep_view(),
                forall|j: int| 0 <= j < rows@.len() ==> (#[trigger] rows@[j]).1@.len() == 5,
                tracks.deep_view() == search_tracks(rv.take(i as int)),
            decreases rows.len() - i,
        {
            assert(rv.take(i + 1).drop_last() =~= rv.take(i as int));
            assert(rv[i as int] == rows@[i as int].deep_view());
            let ghost before = tracks.deep_view();
            match parse_search_track_row(&rows[i]) {
                Some(t) => {
                    tracks.push(t);
                    assert(tracks.deep_view() =~= before.push(t.deep_view()));
                },
                None => {},
            }
            i = i + 1;
        }
        assert(rv.take(i as int) =~= rv);
        Ok(tracks)
    }

    /// The albums of an album search result page, in order; rows without a name or an artist
    /// are skipped.
    pub fn parse_album_search_results(&self, document: &str) -> (res: Result<Vec<Album>, LastFmError>)
        ensures
            res matches Ok(v) && v.deep_view() == search_albums(chartlist_rows(document@, search_row_cells())),
    {
        let cells = search_cells();
        let rows = select_nested(document, "table.chartlist", "tbody tr", &cells);
        let ghost rv = rows.deep_view();
        let mut albums: Vec<Album> = Vec::new();
        let mut i: usize = 0;
        while i < rows.len()
            invariant
                i <= rows@.len(),
                rv == rows.deep_view(),
                forall|j: int| 0 <= j < rows@.len() ==> (#[trigger] rows@[j]).1@.len() == 5,
                albums.deep_view() == search_albums(rv.take(i as int)),
            decreases rows.len() - i,
        {
            assert(rv.take(i + 1).drop_last() =~= rv.take(i as int));
            assert(rv[i as int] == rows@[i as int].deep_view());
            let ghost before = albums.deep_view();
            match parse_search_album_row(&rows[i]) {
                Some(a) => {
                    albums.push(a);
                    assert(albums.deep_view() =~= before.push(a.deep_view()));
                },
                None => {},
            }
            i = i + 1;
        }
        assert(rv.take(i as int) =~= rv);
        Ok(albums)
    }

    /// A page of the user's artists.
    pub fn parse_artists_page(&self, document: &str, page_number: u32) -> (res: Result<ArtistPage, LastFmError>)
        ensures
            res matches Ok(p) && p.artists.deep_view() == row_artists(nested_rows(document@, "table.chartlist"@, "tr.js-link-block"@, artist_row_cells()))
                && p.page_number == page_number && (p.has_next_page, p.total_pages) == pagination_info(document@),
    {
        let cells = artist_cells();
        let rows = select_nested(document, "table.chartlist", "tr.js-link-block", &cells);
        let ghost rv = rows.deep_view();
        let mut artists: Vec<Artist> = Vec::new();
        let mut i: usize = 0;
        while i < rows.len()
            invariant
                i <= rows@.len(),
                rv == rows.deep_view(),
                forall|j: int| 0 <= j < rows@.len() ==> (#[trigger] rows@[j]).1@.len() == 2,
                artists.deep_view() == row_artists(rv.take(i as int)),
            decreases rows.len() - i,
        {
            assert(rv.take(i + 1).drop_last() =~= rv.take(i as int));
            assert(rv[i as int] == rows@[i as int].deep_view());
            let ghost before = artists.deep_view();
            match parse_artist_row(&rows[i]) {
                Some(a) => {
                    artists.push(a);
                    assert(artists.deep_view() =~= before.push(a.deep_view()));
                },
                None => {},
            }
            i = i + 1;
        }
        assert(rv.take(i as int) =~= rv);
        let (has_next_page, total_pages) = match self.parse_pagination(document, page_number) {
            Ok(p) => p,
            Err(e) => return Err(e),
        };
        Ok(ArtistPage { artists, page_number, has_next_page, total_pages })
    }

}

} // verus!
