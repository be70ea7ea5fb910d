//! The data model: tracks, albums, scrobble edits and their outcomes.

use vstd::prelude::*;
use crate::text::{
    u64_to_string, decimal_digits, str_starts_with, starts_with_seq, chars_of, chars_occur_at,
    split_once_chars, split_once_spec, split_chars, split_spec, slice_chars, find_char, string_of,
    index_of_char, lemma_index_of_char,
};

verus! {

broadcast use vstd::string::group_string_axioms;

/// One track as listed on a library page.
#[derive(Debug, Clone)]
pub struct Track {
    pub name: String,
    pub artist: String,
    pub playcount: u32,
    pub timestamp: Option<u64>,
    pub album: Option<String>,
    pub album_artist: Option<String>,
}

/// One page of tracks.
#[derive(Debug, Clone)]
pub struct TrackPage {
    pub tracks: Vec<Track>,
    pub page_number: u32,
    pub has_next_page: bool,
    pub total_pages: Option<u32>,
}

/// One album as listed on a library page.
#[derive(Debug, Clone)]
pub struct Album {
    pub name: String,
    pub artist: String,
    pub playcount: u32,
    pub timestamp: Option<u64>,
}

/// One page of albums.
#[derive(Debug, Clone)]
pub struct AlbumPage {
    pub albums: Vec<Album>,
    pub page_number: u32,
    pub has_next_page: bool,
    pub total_pages: Option<u32>,
}

/// The value of a `Track`, with its strings as character sequences.
pub struct TrackView {
    pub name: Seq<char>,
    pub artist: Seq<char>,
    pub playcount: u32,
    pub timestamp: Option<u64>,
    pub album: Option<Seq<char>>,
    pub album_artist: Option<Seq<char>>,
}

impl View for Track {
    type V = TrackView;

    open spec fn view(&self) -> TrackView {
        TrackView {
            name: self.name@,
            artist: self.artist@,
            playcount: self.playcount,
            timestamp: self.timestamp,
            album: self.album.deep_view(),
            album_artist: self.album_artist.deep_view(),
        }
    }
}

impl DeepView for Track {
    type V = TrackView;

    open spec fn deep_view(&self) -> TrackView {
        self@
    }
}

/// The value of an `Album`, with its strings as character sequences.
pub struct AlbumView {
    pub name: Seq<char>,
    pub artist: Seq<char>,
    pub playcount: u32,
    pub timestamp: Option<u64>,
}

impl View for Album {
    type V = AlbumView;

    open spec fn view(&self) -> AlbumView {
        AlbumView { name: self.name@, artist: self.artist@, playcount: self.playcount, timestamp: self.timestamp }
    }
}

impl DeepView for Album {
    type V = AlbumView;

    open spec fn deep_view(&self) -> AlbumView {
        self@
    }
}

/// One artist as listed on a library page.
#[derive(Debug, Clone)]
pub struct Artist {
    pub name: String,
    pub playcount: u32,
    pub timestamp: Option<u64>,
}

/// The value of an `Artist`, with its name as a character sequence.
pub struct ArtistView {
    pub name: Seq<char>,
    pub playcount: u32,
    pub timestamp: Option<u64>,
}

impl View for Artist {
    type V = ArtistView;

    open spec fn view(&self) -> ArtistView {
        ArtistView { name: self.name@, playcount: self.playcount, timestamp: self.timestamp }
    }
}

impl DeepView for Artist {
    type V = ArtistView;

    open spec fn deep_view(&self) -> ArtistView {
        self@
    }
}

/// One page of artists.
#[derive(Debug, Clone)]
pub struct ArtistPage {
    pub artists: Vec<Artist>,
    pub page_number: u32,
    pub has_next_page: bool,
    pub total_pages: Option<u32>,
}

/// A requested scrobble edit, where the original values may still be unknown.
#[derive(Debug, Clone)]
pub struct ScrobbleEdit {
    pub track_name_original: Option<String>,
    pub album_name_original: Option<String>,
    pub artist_name_original: String,
    pub album_artist_name_original: Option<String>,
    pub track_name: Option<String>,
    pub album_name: Option<String>,
    pub artist_name: String,
    pub album_artist_name: Option<String>,
    pub timestamp: Option<u64>,
    pub edit_all: bool,
}

/// A fully specified scrobble edit, with every value known.
#[derive(Debug, Clone)]
pub struct ExactScrobbleEdit {
    pub track_name_original: String,
    pub album_name_original: String,
    pub artist_name_original: String,
    pub album_artist_name_original: String,
    pub track_name: String,
    pub album_name: String,
    pub artist_name: String,
    pub album_artist_name: String,
    pub timestamp: u64,
    pub edit_all: bool,
}

/// The value of a `ScrobbleEdit`, with its strings as character sequences.
pub struct ScrobbleEditView {
    pub track_name_original: Option<Seq<char>>,
    pub album_name_original: Option<Seq<char>>,
    pub artist_name_original: Seq<char>,
    pub album_artist_name_original: Option<Seq<char>>,
    pub track_name: Option<Seq<char>>,
    pub album_name: Option<Seq<char>>,
    pub artist_name: Seq<char>,
    pub album_artist_name: Option<Seq<char>>,
    pub timestamp: Option<u64>,
    pub edit_all: bool,
}

impl View for ScrobbleEdit {
    type V = ScrobbleEditView;

    open spec fn view(&self) -> ScrobbleEditView {
        ScrobbleEditView {
            track_name_original: self.track_name_original.deep_view(),
            album_name_original: self.album_name_original.deep_view(),
            artist_name_original: self.artist_name_original@,
            album_artist_name_original: self.album_artist_name_original.deep_view(),
            track_name: self.track_name.deep_view(),
            album_name: self.album_name.deep_view(),
            artist_name: self.artist_name@,
            album_artist_name: self.album_artist_name.deep_view(),
            timestamp: self.timestamp,
            edit_all: self.edit_all,
        }
    }
}

/// The edit of one scrobble that changes nothing yet, as `from_track_info` builds it.
pub open spec fn track_info_edit(track: Seq<char>, album: Seq<char>, artist: Seq<char>, timestamp: u64) -> ScrobbleEditView {
    ScrobbleEditView {
        track_name_original: Some(track),
        album_name_original: Some(album),
        artist_name_original: artist,
        album_artist_name_original: Some(artist),
        track_name: Some(track),
        album_name: Some(album),
        artist_name: artist,
        album_artist_name: Some(artist),
        timestamp: Some(timestamp),
        edit_all: false,
    }
}

/// The value of an `ExactScrobbleEdit`, with its strings as character sequences.
pub struct ExactEditView {
    pub track_name_original: Seq<char>,
    pub album_name_original: Seq<char>,
    pub artist_name_original: Seq<char>,
    pub album_artist_name_original: Seq<char>,
    pub track_name: Seq<char>,
    pub album_name: Seq<char>,
    pub artist_name: Seq<char>,
    pub album_artist_name: Seq<char>,
    pub timestamp: u64,
    pub edit_all: bool,
}

impl View for ExactScrobbleEdit {
    type V = ExactEditView;

    open spec fn view(&self) -> ExactEditView {
        ExactEditView {
            track_name_original: self.track_name_original@,
            album_name_original: self.album_name_original@,
            artist_name_original: self.artist_name_original@,
            album_artist_name_original: self.album_artist_name_original@,
            track_name: self.track_name@,
            album_name: self.album_name@,
            artist_name: self.artist_name@,
            album_artist_name: self.album_artist_name@,
            timestamp: self.timestamp,
            edit_all: self.edit_all,
        }
    }
}

impl DeepView for ExactScrobbleEdit {
    type V = ExactEditView;

    open spec fn deep_view(&self) -> ExactEditView {
        self@
    }
}

impl ExactScrobbleEdit {
    /// A copy of the edit.
    pub fn copy(&self) -> (res: Self)
        ensures
            res@ == self@,
    {
        ExactScrobbleEdit {
            track_name_original: self.track_name_original.clone(),
            album_name_original: self.album_name_original.clone(),
            artist_name_original: self.artist_name_original.clone(),
            album_artist_name_original: self.album_artist_name_original.clone(),
            track_name: self.track_name.clone(),
            album_name: self.album_name.clone(),
            artist_name: self.artist_name.clone(),
            album_artist_name: self.album_artist_name.clone(),
            timestamp: self.timestamp,
            edit_all: self.edit_all,
        }
    }
}

/// The outcome of one edit request.
#[derive(Debug, Clone)]
pub struct SingleEditResponse {
    pub success: bool,
    pub message: Option<String>,
    pub album_info: Option<String>,
    pub exact_scrobble_edit: ExactScrobbleEdit,
}

/// The outcomes of all edit requests made for one scrobble edit.
#[derive(Debug, Clone)]
pub struct EditResponse {
    pub individual_results: Vec<SingleEditResponse>,
}

impl ScrobbleEdit {
    /// Builds an edit from all of its parts.
    pub fn new(
        track_name_original: Option<String>,
        album_name_original: Option<String>,
        artist_name_original: String,
        album_artist_name_original: Option<String>,
        track_name: Option<String>,
        album_name: Option<String>,
        artist_name: String,
        album_artist_name: Option<String>,
        timestamp: Option<u64>,
        edit_all: bool,
    ) -> (res: Self)
        ensures
            res.track_name_original == track_name_original,
            res.album_name_original == album_name_original,
            res.artist_name_original == artist_name_original,
            res.album_artist_name_original == album_artist_name_original,
            res.track_name == track_name,
            res.album_name == album_name,
            res.artist_name == artist_name,
            res.album_artist_name == album_artist_name,
            res.timestamp == timestamp,
            res.edit_all == edit_all,
    {
        ScrobbleEdit {
            track_name_original,
            album_name_original,
            artist_name_original,
            album_artist_name_original,
            track_name,
            album_name,
            artist_name,
            album_artist_name,
            timestamp,
            edit_all,
        }
    }

    /// An edit of one scrobble that starts out changing nothing; the album artist is the artist.
    pub fn from_track_info(
        original_track: &str,
        original_album: &str,
        original_artist: &str,
        timestamp: u64,
    ) -> (res: Self)
        ensures
            res.track_name_original.deep_view() == Some(original_track@),
            res.album_name_original.deep_view() == Some(original_album@),
            res.artist_name_original@ == original_artist@,
            res.album_artist_name_original.deep_view() == Some(original_artist@),
            res.track_name.deep_view() == Some(original_track@),
            res.album_name.deep_view() == Some(original_album@),
            res.artist_name@ == original_artist@,
            res.album_artist_name.deep_view() == Some(original_artist@),
            res.timestamp == Some(timestamp),
            !res.edit_all,
    {
        Self::new(
            Some(String::from_str(original_track)),
            Some(String::from_str(original_album)),
            String::from_str(original_artist),
            Some(String::from_str(original_artist)),
            Some(String::from_str(original_track)),
            Some(String::from_str(original_album)),
            String::from_str(original_artist),
            Some(String::from_str(original_artist)),
            Some(timestamp),
            false,
        )
    }

    /// Sets the new track name; nothing else changes.
    pub fn with_track_name(self, track_name: &str) -> (res: Self)
        ensures
            res.track_name.deep_view() == Some(track_name@),
            res == (ScrobbleEdit { track_name: res.track_name, ..self }),
    {
        let mut s = self;
        s.track_name = Some(String::from_str(track_name));
        s
    }

    /// Sets the new album name; nothing else changes.
    pub fn with_album_name(self, album_name: &str) -> (res: Self)
        ensures
            res.album_name.deep_view() == Some(album_name@),
            res == (ScrobbleEdit { album_name: res.album_name, ..self }),
    {
        let mut s = self;
        s.album_name = Some(String::from_str(album_name));
        s
    }

    /// Sets the new artist name, and the new album artist name to the same value.
    pub fn with_artist_name(self, artist_name: &str) -> (res: Self)
        ensures
            res.artist_name@ == artist_name@,
            res.album_artist_name.deep_view() == Some(artist_name@),
            res == (ScrobbleEdit {
                artist_name: res.artist_name,
                album_artist_name: res.album_artist_name,
                ..self
            }),
    {
        let mut s = self;
        s.artist_name = String::from_str(artist_name);
        s.album_artist_name = Some(String::from_str(artist_name));
        s
    }

    /// Sets whether every matching scrobble is edited; nothing else changes.
    pub fn with_edit_all(self, edit_all: bool) -> (res: Self)
        ensures
            res == (ScrobbleEdit { edit_all, ..self }),
    {
        let mut s = self;
        s.edit_all = edit_all;
        s
    }

    /// The same edit as `from_track_info`, with the arguments in another order.
    pub fn with_minimal_info(
        track_name: &str,
        artist_name: &str,
        album_name: &str,
        timestamp: u64,
    ) -> (res: Self)
        ensures
            res.track_name_original.deep_view() == Some(track_name@),
            res.album_name_original.deep_view() == Some(album_name@),
            res.artist_name_original@ == artist_name@,
            res.album_artist_name_original.deep_view() == Some(artist_name@),
            res.track_name.deep_view() == Some(track_name@),
            res.album_name.deep_view() == Some(album_name@),
            res.artist_name@ == artist_name@,
            res.album_artist_name.deep_view() == Some(artist_name@),
            res.timestamp == Some(timestamp),
            !res.edit_all,
    {
        Self::from_track_info(track_name, album_name, artist_name, timestamp)
    }

    /// An edit of a track whose album and timestamp are still to be looked up.
    pub fn from_track_and_artist(track_name: &str, artist_name: &str) -> (res: Self)
        ensures
            res.track_name_original.deep_view() == Some(track_name@),
            res.album_name_original is None,
            res.artist_name_original@ == artist_name@,
            res.album_artist_name_original is None,
            res.track_name.deep_view() == Some(track_name@),
            res.album_name is None,
            res.artist_name@ == artist_name@,
            res.album_artist_name.deep_view() == Some(artist_name@),
            res.timestamp is None,
            !res.edit_all,
    {
        Self::new(
            Some(String::from_str(track_name)),
            None,
            String::from_str(artist_name),
            None,
            Some(String::from_str(track_name)),
            None,
            String::from_str(artist_name),
            Some(String::from_str(artist_name)),
            None,
            false,
        )
    }

    /// Renames an artist across all of its scrobbles.
    pub fn for_artist(old_artist_name: &str, new_artist_name: &str) -> (res: Self)
        ensures
            res.track_name_original is None,
            res.album_name_original is None,
            res.artist_name_original@ == old_artist_name@,
            res.album_artist_name_original is None,
            res.track_name is None,
            res.album_name is None,
            res.artist_name@ == new_artist_name@,
            res.album_artist_name.deep_view() == Some(new_artist_name@),
            res.timestamp is None,
            res.edit_all,
    {
        Self::new(
            None,
            None,
            String::from_str(old_artist_name),
            None,
            None,
            None,
            String::from_str(new_artist_name),
            Some(String::from_str(new_artist_name)),
            None,
            true,
        )
    }

    /// Moves all scrobbles of one album from one artist to another.
    pub fn for_album(album_name: &str, old_artist_name: &str, new_artist_name: &str) -> (res: Self)
        ensures
            res.track_name_original is None,
            res.album_name_original.deep_view() == Some(album_name@),
            res.artist_name_original@ == old_artist_name@,
            res.album_artist_name_original.deep_view() == Some(old_artist_name@),
            res.track_name is None,
            res.album_name.deep_view() == Some(album_name@),
            res.artist_name@ == new_artist_name@,
            res.album_artist_name is None,
            res.timestamp is None,
            res.edit_all,
    {
        Self::new(
            None,
            Some(String::from_str(album_name)),
            String::from_str(old_artist_name),
            Some(String::from_str(old_artist_name)),
            None,
            Some(String::from_str(album_name)),
            String::from_str(new_artist_name),
            None,
            None,
            true,
        )
    }
}

/// The form fields of an edit request, in the order they are sent.
pub open spec fn edit_form_fields(e: ExactScrobbleEdit, csrf: Seq<char>) -> Seq<(Seq<char>, Seq<char>)> {
    seq![
        ("csrfmiddlewaretoken"@, csrf),
        ("track_name_original"@, e.track_name_original@),
        ("track_name"@, e.track_name@),
        ("artist_name_original"@, e.artist_name_original@),
        ("artist_name"@, e.artist_name@),
        ("album_name_original"@, e.album_name_original@),
        ("album_name"@, e.album_name@),
        ("album_artist_name_original"@, e.album_artist_name_original@),
        ("album_artist_name"@, e.album_artist_name@),
        ("timestamp"@, decimal_digits(e.timestamp as nat)),
    ] + (if e.edit_all { seq![("edit_all"@, "1"@)] } else { Seq::empty() }) + seq![
        ("submit"@, "edit-scrobble"@),
        ("ajax"@, "1"@),
    ]
}

/// The field `name` of a form carries `value`: some field is exactly that pair, and every field
/// of that name holds that value.
pub open spec fn form_carries(fields: Seq<(Seq<char>, Seq<char>)>, name: Seq<char>, value: Seq<char>) -> bool {
    &&& exists|i: int| 0 <= i < fields.len() && fields[i] == (name, value)
    &&& forall|i: int| 0 <= i < fields.len() && (#[trigger] fields[i]).0 == name ==> fields[i].1 == value
}

/// Each field of an edit form carries the edit's value of the same name: the new values under
/// the plain names, the values being replaced under the `_original` names, and the token.
pub open spec fn form_carries_edit(fields: Seq<(Seq<char>, Seq<char>)>, e: ExactScrobbleEdit, csrf: Seq<char>) -> bool {
    &&& form_carries(fields, "csrfmiddlewaretoken"@, csrf)
    &&& form_carries(fields, "track_name_original"@, e.track_name_original@)
    &&& form_carries(fields, "track_name"@, e.track_name@)
    &&& form_carries(fields, "artist_name_original"@, e.artist_name_original@)
    &&& form_carries(fields, "artist_name"@, e.artist_name@)
    &&& form_carries(fields, "album_name_original"@, e.album_name_original@)
    &&& form_carries(fields, "album_name"@, e.album_name@)
    &&& form_carries(fields, "album_artist_name_original"@, e.album_artist_name_original@)
    &&& form_carries(fields, "album_artist_name"@, e.album_artist_name@)
}

fn push_field(fields: &mut Vec<(String, String)>, name: &str, value: String)
    ensures
        final(fields).deep_view() == old(fields).deep_view().push((name@, value@)),
{
    fields.push((String::from_str(name), value));
    assert(final(fields).deep_view() =~= old(fields).deep_view().push((name@, value@)));
}

impl ExactScrobbleEdit {
    /// Builds an edit from all of its parts.
    pub fn new(
        track_name_original: String,
        album_name_original: String,
        artist_name_original: String,
        album_artist_name_original: String,
        track_name: String,
        album_name: String,
        artist_name: String,
        album_artist_name: String,
        timestamp: u64,
        edit_all: bool,
    ) -> (res: Self)
        ensures
            res.track_name_original == track_name_original,
            res.album_name_original == album_name_original,
            res.artist_name_original == artist_name_original,
            res.album_artist_name_original == album_artist_name_original,
            res.track_name == track_name,
            res.album_name == album_name,
            res.artist_name == artist_name,
            res.album_artist_name == album_artist_name,
            res.timestamp == timestamp,
            res.edit_all == edit_all,
    {
        ExactScrobbleEdit {
            track_name_original,
            album_name_original,
            artist_name_original,
            album_artist_name_original,
            track_name,
            album_name,
            artist_name,
            album_artist_name,
            timestamp,
            edit_all,
        }
    }

    /// The form fields that submit this edit, as name and value pairs in sending order.
    pub fn build_form_data(&self, csrf_token: &str) -> (res: Vec<(String, String)>)
        ensures
            res.deep_view() == edit_form_fields(*self, csrf_token@),
            form_carries_edit(res.deep_view(), *self, csrf_token@),
    {
        proof {
            crate::laws::law_edit_form_carries_values(*self, csrf_token@);
        }
        let mut f: Vec<(String, String)> = Vec::new();
        push_field(&mut f, "csrfmiddlewaretoken", String::from_str(csrf_token));
        push_field(&mut f, "track_name_original", self.track_name_original.clone());
        push_field(&mut f, "track_name", self.track_name.clone());
        push_field(&mut f, "artist_name_original", self.artist_name_original.clone());
        push_field(&mut f, "artist_name", self.artist_name.clone());
        push_field(&mut f, "album_name_original", self.album_name_original.clone());
        push_field(&mut f, "album_name", self.album_name.clone());
        push_field(&mut f, "album_artist_name_original", self.album_artist_name_original.clone());
        push_field(&mut f, "album_artist_name", self.album_artist_name.clone());
        push_field(&mut f, "timestamp", u64_to_string(self.timestamp));
        if self.edit_all {
            push_field(&mut f, "edit_all", String::from_str("1"));
        }
        push_field(&mut f, "submit", String::from_str("edit-scrobble"));
        push_field(&mut f, "ajax", String::from_str("1"));
        assert(f.deep_view() =~= edit_form_fields(*self, csrf_token@));
        f
    }

    /// The same edit as a `ScrobbleEdit`, with every value present.
    pub fn to_scrobble_edit(&self) -> (res: ScrobbleEdit)
        ensures
            res.track_name_original.deep_view() == Some(self.track_name_original@),
            res.album_name_original.deep_view() == Some(self.album_name_original@),
            res.artist_name_original@ == self.artist_name_original@,
            res.album_artist_name_original.deep_view() == Some(self.album_artist_name_original@),
            res.track_name.deep_view() == Some(self.track_name@),
            res.album_name.deep_view() == Some(self.album_name@),
            res.artist_name@ == self.artist_name@,
            res.album_artist_name.deep_view() == Some(self.album_artist_name@),
            res.timestamp == Some(self.timestamp),
            res.edit_all == self.edit_all,
    {
        ScrobbleEdit::new(
            Some(self.track_name_original.clone()),
            Some(self.album_name_original.clone()),
            self.artist_name_original.clone(),
            Some(self.album_artist_name_original.clone()),
            Some(self.track_name.clone()),
            Some(self.album_name.clone()),
            self.artist_name.clone(),
            Some(self.album_artist_name.clone()),
            Some(self.timestamp),
            self.edit_all,
        )
    }
}

/// How many of the results are successes.
pub open spec fn count_successes(rs: Seq<SingleEditResponse>) -> nat
    decreases rs.len(),
{
    if rs.len() == 0 {
        0
    } else {
        count_successes(rs.drop_last()) + if rs.last().success { 1nat } else { 0nat }
    }
}

/// How many of the results are failures.
pub open spec fn count_failures(rs: Seq<SingleEditResponse>) -> nat
    decreases rs.len(),
{
    if rs.len() == 0 {
        0
    } else {
        count_failures(rs.drop_last()) + if rs.last().success { 0nat } else { 1nat }
    }
}

pub proof fn lemma_counts_partition(rs: Seq<SingleEditResponse>)
    ensures
        count_successes(rs) + count_failures(rs) == rs.len(),
        count_successes(rs) == rs.len() <==> (forall|i: int| 0 <= i < rs.len() ==> #[trigger] rs[i].success),
        count_successes(rs) == 0 <==> (forall|i: int| 0 <= i < rs.len() ==> !#[trigger] rs[i].success),
    decreases rs.len(),
{
    if rs.len() > 0 {
        let p = rs.drop_last();
        lemma_counts_partition(p);
        assert forall|i: int| 0 <= i < p.len() implies #[trigger] p[i] == rs[i] by {}
        if count_successes(rs) == rs.len() {
            assert forall|i: int| 0 <= i < rs.len() implies #[trigger] rs[i].success by {
                if i < p.len() {
                    assert(p[i] == rs[i]);
                }
            }
        }
        if forall|i: int| 0 <= i < rs.len() ==> #[trigger] rs[i].success {
            assert(rs[rs.len() - 1].success);
            assert forall|i: int| 0 <= i < p.len() implies #[trigger] p[i].success by {
                assert(p[i] == rs[i]);
            }
        }
        if count_successes(rs) == 0 {
            assert forall|i: int| 0 <= i < rs.len() implies !#[trigger] rs[i].success by {
                if i < p.len() {
                    assert(p[i] == rs[i]);
                }
            }
        }
        if forall|i: int| 0 <= i < rs.len() ==> !#[trigger] rs[i].success {
            assert(!rs[rs.len() - 1].success);
            assert forall|i: int| 0 <= i < p.len() implies !#[trigger] p[i].success by {
                assert(p[i] == rs[i]);
            }
        }
    }
}

/// The one-line summary of a set of edit results.
pub open spec fn summary_text(total: nat, successful: nat, failed: nat) -> Seq<char> {
    if total == 0 {
        "No edit operations performed"@
    } else if successful == total {
        if total == 1 {
            "Edit completed successfully"@
        } else {
            "All "@ + decimal_digits(total) + " edits completed successfully"@
        }
    } else if successful == 0 {
        if total == 1 {
            "Edit failed"@
        } else {
            "All "@ + decimal_digits(total) + " edits failed"@
        }
    } else {
        decimal_digits(successful) + " of "@ + decimal_digits(total) + " edits succeeded, "@
            + decimal_digits(failed) + " failed"@
    }
}

/// The numbered line that describes the result at position `i` (counting from zero).
pub open spec fn detail_text(i: nat, r: SingleEditResponse) -> Seq<char> {
    let suffix = match r.album_info {
        Some(info) => " ("@ + info@ + ")"@,
        None => Seq::<char>::empty(),
    };
    match r.message {
        Some(m) => decimal_digits(i + 1) + ": "@ + m@ + suffix,
        None => decimal_digits(i + 1) + (if r.success { ": Success"@ } else { ": Failed"@ }) + suffix,
    }
}

fn detail_line(i: usize, r: &SingleEditResponse) -> (res: String)
    requires
        i < u64::MAX,
    ensures
        res@ == detail_text(i as nat, *r),
{
    let mut out = u64_to_string(i as u64 + 1);
    match &r.message {
        Some(m) => {
            out.append(": ");
            out.append(m.as_str());
        },
        None => {
            if r.success {
                out.append(": Success");
            } else {
                out.append(": Failed");
            }
        },
    }
    match &r.album_info {
        Some(info) => {
            out.append(" (");
            out.append(info.as_str());
            out.append(")");
        },
        None => {},
    }
    proof {
        let suffix = if r.album_info is Some {
            " ("@ + r.album_info->0@ + ")"@
        } else {
            Seq::<char>::empty()
        };
        if r.message is Some {
            assert(out@ =~= decimal_digits((i + 1) as nat) + ": "@ + r.message->0@ + suffix);
        } else {
            assert(out@ =~= decimal_digits((i + 1) as nat) + (if r.success { ": Success"@ } else { ": Failed"@ }) + suffix);
        }
    }
    out
}

impl EditResponse {
    /// A response holding exactly one result.
    pub fn single(
        success: bool,
        message: Option<String>,
        album_info: Option<String>,
        exact_scrobble_edit: ExactScrobbleEdit,
    ) -> (res: Self)
        ensures
            res.individual_results@.len() == 1,
            res.individual_results@[0] == (SingleEditResponse { success, message, album_info, exact_scrobble_edit }),
    {
        let mut v: Vec<SingleEditResponse> = Vec::new();
        v.push(SingleEditResponse { success, message, album_info, exact_scrobble_edit });
        EditResponse { individual_results: v }
    }

    /// A response holding the given results, in order.
    pub fn from_results(results: Vec<SingleEditResponse>) -> (res: Self)
        ensures
            res.individual_results == results,
    {
        EditResponse { individual_results: results }
    }

    /// Whether there is at least one result and every result is a success.
    pub fn all_successful(&self) -> (res: bool)
        ensures
            res == (self.individual_results@.len() > 0 && forall|i: int|
                0 <= i < self.individual_results@.len() ==> #[trigger] self.individual_results@[i].success),
    {
        if self.individual_results.len() == 0 {
            return false;
        }
        let mut i: usize = 0;
        while i < self.individual_results.len()
            invariant
                i <= self.individual_results@.len(),
                forall|j: int| 0 <= j < i ==> #[trigger] self.individual_results@[j].success,
            decreases self.individual_results.len() - i,
        {
            if !self.individual_results[i].success {
                return false;
            }
            i = i + 1;
        }
        true
    }

    /// Whether some result is a success.
    pub fn any_successful(&self) -> (res: bool)
        ensures
            res == exists|i: int|
                0 <= i < self.individual_results@.len() && #[trigger] self.individual_results@[i].success,
    {
        let mut i: usize = 0;
        while i < self.individual_results.len()
            invariant
                i <= self.individual_results@.len(),
                forall|j: int| 0 <= j < i ==> !#[trigger] self.individual_results@[j].success,
            decreases self.individual_results.len() - i,
        {
            if self.individual_results[i].success {
                return true;
            }
            i = i + 1;
        }
        false
    }

    /// The number of results.
    pub fn total_edits(&self) -> (res: usize)
        ensures
            res == self.individual_results@.len(),
    {
        self.individual_results.len()
    }

    /// The number of successful results.
    pub fn successful_edits(&self) -> (res: usize)
        ensures
            res == count_successes(self.individual_results@),
    {
        let mut n: usize = 0;
        let mut i: usize = 0;
        while i < self.individual_results.len()
            invariant
                i <= self.individual_results@.len(),
                n == count_successes(self.individual_results@.take(i as int)),
                n <= i,
            decreases self.individual_results.len() - i,
        {
            assert(self.individual_results@.take(i + 1).drop_last() =~= self.individual_results@.take(i as int));
            if self.individual_results[i].success {
                n = n + 1;
            }
            i = i + 1;
        }
        assert(self.individual_results@.take(i as int) =~= self.individual_results@);
        n
    }

    /// The number of failed results.
    pub fn failed_edits(&self) -> (res: usize)
        ensures
            res == count_failures(self.individual_results@),
    {
        let mut n: usize = 0;
        let mut i: usize = 0;
        while i < self.individual_results.len()
            invariant
                i <= self.individual_results@.len(),
                n == count_failures(self.individual_results@.take(i as int)),
                n <= i,
            decreases self.individual_results.len() - i,
        {
            assert(self.individual_results@.take(i + 1).drop_last() =~= self.individual_results@.take(i as int));
            if !self.individual_results[i].success {
                n = n + 1;
            }
            i = i + 1;
        }
        assert(self.individual_results@.take(i as int) =~= self.individual_results@);
        n
    }

    /// A one-line summary of how many edits succeeded and failed.
    pub fn summary_message(&self) -> (res: String)
        ensures
            res@ == summary_text(
                self.individual_results@.len(),
                count_successes(self.individual_results@),
                count_failures(self.individual_results@),
            ),
    {
        let total = self.total_edits();
        let successful = self.successful_edits();
        let failed = self.failed_edits();
        if total == 0 {
            return String::from_str("No edit operations performed");
        }
        if successful == total {
            if total == 1 {
                String::from_str("Edit completed successfully")
            } else {
                let mut s = String::from_str("All ");
                s.append(u64_to_string(total as u64).as_str());
                s.append(" edits completed successfully");
                s
            }
        } else if successful == 0 {
            if total == 1 {
                String::from_str("Edit failed")
            } else {
                let mut s = String::from_str("All ");
                s.append(u64_to_string(total as u64).as_str());
                s.append(" edits failed");
                s
            }
        } else {
            let mut s = u64_to_string(successful as u64);
            s.append(" of ");
            s.append(u64_to_string(total as u64).as_str());
            s.append(" edits succeeded, ");
            s.append(u64_to_string(failed as u64).as_str());
            s.append(" failed");
            s
        }
    }

    /// One numbered line per result, in order.
    pub fn detailed_messages(&self) -> (res: Vec<String>)
        ensures
            res@.len() == self.individual_results@.len(),
            forall|i: int| 0 <= i < res@.len() ==>
                #[trigger] res@[i]@ == detail_text(i as nat, self.individual_results@[i]),
    {
        let mut out: Vec<String> = Vec::new();
        let mut i: usize = 0;
        while i < self.individual_results.len()
            invariant
                i <= self.individual_results@.len(),
                out@.len() == i,
                forall|j: int| 0 <= j < i ==>
                    #[trigger] out@[j]@ == detail_text(j as nat, self.individual_results@[j]),
            decreases self.individual_results.len() - i,
        {
            let line = detail_line(i, &self.individual_results[i]);
            out.push(line);
            i = i + 1;
        }
        out
    }

    /// Whether there is exactly one result.
    pub fn is_single_edit(&self) -> (res: bool)
        ensures
            res == (self.individual_results@.len() == 1),
    {
        self.individual_results.len() == 1
    }

    /// Whether the whole edit succeeded: the same as `all_successful`.
    pub fn success(&self) -> (res: bool)
        ensures
            res == (self.individual_results@.len() > 0 && forall|i: int|
                0 <= i < self.individual_results@.len() ==> #[trigger] self.individual_results@[i].success),
    {
        self.all_successful()
    }

    /// The summary message, always present.
    pub fn message(&self) -> (res: Option<String>)
        ensures
            res matches Some(m) && m@ == summary_text(
                self.individual_results@.len(),
                count_successes(self.individual_results@),
                count_failures(self.individual_results@),
            ),
    {
        Some(self.summary_message())
    }
}

#[verifier::external_type_specification]
#[verifier::external_body]
pub struct ExIoError(std::io::Error);

/// The errors of the library.
#[derive(Debug)]
pub enum LastFmError {
    Http(String),
    Auth(String),
    CsrfNotFound,
    Parse(String),
    RateLimit { retry_after: u64 },
    EditFailed(String),
    Io(std::io::Error),
}

/// The length in bytes of the UTF-8 encoding of `s`, as `str::len` reports it.
pub open spec fn byte_len(s: Seq<char>) -> usize {
    vstd::utf8::encode_utf8(s).len() as usize
}

/// A cookie that carries a session: it starts with `sessionid=` and is longer than 50 bytes.
pub open spec fn is_session_cookie(c: Seq<char>) -> bool {
    starts_with_seq(c, "sessionid="@) && byte_len(c) > 50
}

/// An authenticated web session that can be saved and restored.
#[derive(Debug, Clone)]
pub struct LastFmEditSession {
    pub username: String,
    pub cookies: Vec<String>,
    pub csrf_token: Option<String>,
    pub base_url: String,
}

impl LastFmEditSession {
    /// Builds a session from its parts.
    pub fn new(
        username: String,
        session_cookies: Vec<String>,
        csrf_token: Option<String>,
        base_url: String,
    ) -> (res: Self)
        ensures
            res.username == username,
            res.cookies == session_cookies,
            res.csrf_token == csrf_token,
            res.base_url == base_url,
    {
        LastFmEditSession { username, cookies: session_cookies, csrf_token, base_url }
    }

    /// Whether the session looks usable: a user name, a CSRF token and a session cookie.
    pub fn is_valid(&self) -> (res: bool)
        ensures
            res == (self.username@.len() > 0 && self.cookies@.len() > 0 && self.csrf_token is Some
                && exists|i: int| 0 <= i < self.cookies@.len() && is_session_cookie(#[trigger] self.cookies@[i]@)),
    {
        !self.username.as_str().is_empty() && self.cookies.len() > 0 && self.csrf_token.is_some()
            && has_session_cookie(&self.cookies)
    }
}

/// Whether some cookie in the list is a session cookie.
pub fn has_session_cookie(cookies: &Vec<String>) -> (res: bool)
    ensures
        res == exists|i: int| 0 <= i < cookies@.len() && is_session_cookie(#[trigger] cookies@[i]@),
{
    let mut i: usize = 0;
    while i < cookies.len()
        invariant
            i <= cookies@.len(),
            forall|j: int| 0 <= j < i ==> !is_session_cookie(#[trigger] cookies@[j]@),
        decreases cookies.len() - i,
    {
        let c = cookies[i].as_str();
        if str_starts_with(c, "sessionid=") && c.len() > 50 {
            assert(is_session_cookie(cookies@[i as int]@));
            return true;
        }
        i = i + 1;
    }
    false
}

/// The phrases that reveal a rate-limited response by default.
pub open spec fn default_rate_limit_patterns() -> Seq<Seq<char>> {
    seq![
        "you've tried to log in too many times"@,
        "you're requesting too many pages"@,
        "slow down"@,
        "too fast"@,
        "rate limit"@,
        "throttled"@,
        "temporarily blocked"@,
        "temporarily restricted"@,
        "captcha"@,
        "verify you're human"@,
        "prove you're not a robot"@,
        "security check"@,
        "service temporarily unavailable"@,
        "quota exceeded"@,
        "limit exceeded"@,
        "daily limit"@,
    ]
}

fn push_str(v: &mut Vec<String>, s: &str)
    ensures
        final(v).deep_view() == old(v).deep_view().push(s@),
{
    v.push(String::from_str(s));
    assert(final(v).deep_view() =~= old(v).deep_view().push(s@));
}

fn default_patterns() -> (res: Vec<String>)
    ensures
        res.deep_view() == default_rate_limit_patterns(),
{
    let mut v: Vec<String> = Vec::new();
    push_str(&mut v, "you've tried to log in too many times");
    push_str(&mut v, "you're requesting too many pages");
    push_str(&mut v, "slow down");
    push_str(&mut v, "too fast");
    push_str(&mut v, "rate limit");
    push_str(&mut v, "throttled");
    push_str(&mut v, "temporarily blocked");
    push_str(&mut v, "temporarily restricted");
    push_str(&mut v, "captcha");
    push_str(&mut v, "verify you're human");
    push_str(&mut v, "prove you're not a robot");
    push_str(&mut v, "security check");
    push_str(&mut v, "service temporarily unavailable");
    push_str(&mut v, "quota exceeded");
    push_str(&mut v, "limit exceeded");
    push_str(&mut v, "daily limit");
    assert(v.deep_view() =~= default_rate_limit_patterns());
    v
}

/// How rate limiting is recognised in responses.
#[derive(Debug, Clone)]
pub struct RateLimitConfig {
    pub detect_by_status: bool,
    pub detect_by_patterns: bool,
    pub patterns: Vec<String>,
    pub custom_patterns: Vec<String>,
}

impl Default for RateLimitConfig {
    /// Status and pattern detection, with the default phrases and no custom ones.
    fn default() -> (res: Self)
        ensures
            res.detect_by_status,
            res.detect_by_patterns,
            res.patterns.deep_view() == default_rate_limit_patterns(),
            res.custom_patterns@.len() == 0,
    {
        RateLimitConfig {
            detect_by_status: true,
            detect_by_patterns: true,
            patterns: default_patterns(),
            custom_patterns: Vec::new(),
        }
    }
}

impl RateLimitConfig {
    /// No detection at all.
    pub fn disabled() -> (res: Self)
        ensures
            !res.detect_by_status,
            !res.detect_by_patterns,
            res.patterns@.len() == 0,
            res.custom_patterns@.len() == 0,
    {
        RateLimitConfig {
            detect_by_status: false,
            detect_by_patterns: false,
            patterns: Vec::new(),
            custom_patterns: Vec::new(),
        }
    }

    /// Detection by HTTP status only.
    pub fn status_only() -> (res: Self)
        ensures
            res.detect_by_status,
            !res.detect_by_patterns,
            res.patterns@.len() == 0,
            res.custom_patterns@.len() == 0,
    {
        RateLimitConfig {
            detect_by_status: true,
            detect_by_patterns: false,
            patterns: Vec::new(),
            custom_patterns: Vec::new(),
        }
    }

    /// Detection by the default phrases only.
    pub fn patterns_only() -> (res: Self)
        ensures
            !res.detect_by_status,
            res.detect_by_patterns,
            res.patterns.deep_view() == default_rate_limit_patterns(),
            res.custom_patterns@.len() == 0,
    {
        RateLimitConfig {
            detect_by_status: false,
            detect_by_patterns: true,
            patterns: default_patterns(),
            custom_patterns: Vec::new(),
        }
    }

    /// Detection by the given phrases only.
    pub fn custom_patterns_only(patterns: Vec<String>) -> (res: Self)
        ensures
            !res.detect_by_status,
            !res.detect_by_patterns,
            res.patterns@.len() == 0,
            res.custom_patterns == patterns,
    {
        RateLimitConfig {
            detect_by_status: false,
            detect_by_patterns: false,
            patterns: Vec::new(),
            custom_patterns: patterns,
        }
    }

    /// Replaces the custom phrases; nothing else changes.
    pub fn with_custom_patterns(self, patterns: Vec<String>) -> (res: Self)
        ensures
            res == (RateLimitConfig { custom_patterns: patterns, ..self }),
    {
        let mut s = self;
        s.custom_patterns = patterns;
        s
    }

    /// Replaces the standard phrases; nothing else changes.
    pub fn with_patterns(self, patterns: Vec<String>) -> (res: Self)
        ensures
            res == (RateLimitConfig { patterns: patterns, ..self }),
    {
        let mut s = self;
        s.patterns = patterns;
        s
    }
}

/// How failed requests are retried.
#[derive(Debug, Clone, Copy, PartialEq, Eq)]
pub struct RetryConfig {
    pub max_retries: u32,
    pub base_delay: u64,
    pub max_delay: u64,
    pub enabled: bool,
}

impl Default for RetryConfig {
    /// Three retries, a base delay of 5 seconds and a cap of 300 seconds.
    fn default() -> (res: Self)
        ensures
            res == (RetryConfig { max_retries: 3, base_delay: 5, max_delay: 300, enabled: true }),
    {
        RetryConfig { max_retries: 3, base_delay: 5, max_delay: 300, enabled: true }
    }
}

impl RetryConfig {
    /// No retries.
    pub fn disabled() -> (res: Self)
        ensures
            res == (RetryConfig { max_retries: 0, base_delay: 5, max_delay: 300, enabled: false }),
    {
        RetryConfig { max_retries: 0, base_delay: 5, max_delay: 300, enabled: false }
    }

    /// The given number of retries, enabled when it is positive, with the default delays.
    pub fn with_retries(max_retries: u32) -> (res: Self)
        ensures
            res == (RetryConfig { max_retries, base_delay: 5, max_delay: 300, enabled: max_retries > 0 }),
    {
        RetryConfig { max_retries, base_delay: 5, max_delay: 300, enabled: max_retries > 0 }
    }

    /// The given delays, with the default number of retries.
    pub fn with_delays(base_delay: u64, max_delay: u64) -> (res: Self)
        ensures
            res == (RetryConfig { max_retries: 3, base_delay, max_delay, enabled: true }),
    {
        RetryConfig { max_retries: 3, base_delay, max_delay, enabled: true }
    }
}

/// The result of an operation together with how it was retried.
#[derive(Debug)]
pub struct RetryResult<T> {
    pub result: T,
    pub attempts_made: u32,
    pub total_retry_time: u64,
}

/// The client's configuration: retries and rate-limit detection.
#[derive(Debug, Clone)]
pub struct ClientConfig {
    pub retry: RetryConfig,
    pub rate_limit: RateLimitConfig,
}

impl Default for ClientConfig {
    /// The default retry and rate-limit settings.
    fn default() -> (res: Self)
        ensures
            res.retry == (RetryConfig { max_retries: 3, base_delay: 5, max_delay: 300, enabled: true }),
            res.rate_limit.detect_by_status,
            res.rate_limit.detect_by_patterns,
            res.rate_limit.patterns.deep_view() == default_rate_limit_patterns(),
            res.rate_limit.custom_patterns@.len() == 0,
    {
        ClientConfig { retry: RetryConfig::default(), rate_limit: RateLimitConfig::default() }
    }
}

impl ClientConfig {
    /// The default configuration.
    pub fn new() -> (res: Self)
        ensures
            res.retry == (RetryConfig { max_retries: 3, base_delay: 5, max_delay: 300, enabled: true }),
            res.rate_limit.detect_by_status,
            res.rate_limit.detect_by_patterns,
            res.rate_limit.patterns.deep_view() == default_rate_limit_patterns(),
            res.rate_limit.custom_patterns@.len() == 0,
    {
        Self::default()
    }

    /// The default rate-limit detection, with retries disabled.
    pub fn with_retries_disabled() -> (res: Self)
        ensures
            res.retry == (RetryConfig { max_retries: 0, base_delay: 5, max_delay: 300, enabled: false }),
            res.rate_limit.detect_by_status,
            res.rate_limit.detect_by_patterns,
            res.rate_limit.patterns.deep_view() == default_rate_limit_patterns(),
            res.rate_limit.custom_patterns@.len() == 0,
    {
        ClientConfig { retry: RetryConfig::disabled(), rate_limit: RateLimitConfig::default() }
    }

    /// The default retries, with rate-limit detection disabled.
    pub fn with_rate_limiting_disabled() -> (res: Self)
        ensures
            res.retry == (RetryConfig { max_retries: 3, base_delay: 5, max_delay: 300, enabled: true }),
            !res.rate_limit.detect_by_status,
            !res.rate_limit.detect_by_patterns,
            res.rate_limit.patterns@.len() == 0,
            res.rate_limit.custom_patterns@.len() == 0,
    {
        ClientConfig { retry: RetryConfig::default(), rate_limit: RateLimitConfig::disabled() }
    }

    /// Neither retries nor rate-limit detection.
    pub fn minimal() -> (res: Self)
        ensures
            res.retry == (RetryConfig { max_retries: 0, base_delay: 5, max_delay: 300, enabled: false }),
            !res.rate_limit.detect_by_status,
            !res.rate_limit.detect_by_patterns,
            res.rate_limit.patterns@.len() == 0,
            res.rate_limit.custom_patterns@.len() == 0,
    {
        ClientConfig { retry: RetryConfig::disabled(), rate_limit: RateLimitConfig::disabled() }
    }

    /// Replaces the retry settings.
    pub fn with_retry_config(self, retry_config: RetryConfig) -> (res: Self)
        ensures
            res == (ClientConfig { retry: retry_config, ..self }),
    {
        let mut s = self;
        s.retry = retry_config;
        s
    }

    /// Replaces the rate-limit settings.
    pub fn with_rate_limit_config(self, rate_limit_config: RateLimitConfig) -> (res: Self)
        ensures
            res == (ClientConfig { rate_limit: rate_limit_config, ..self }),
    {
        let mut s = self;
        s.rate_limit = rate_limit_config;
        s
    }

    /// Sets the number of retries; retrying is enabled exactly when it is positive.
    pub fn with_max_retries(self, max_retries: u32) -> (res: Self)
        ensures
            res == (ClientConfig {
                retry: RetryConfig { max_retries, enabled: max_retries > 0, ..self.retry },
                ..self
            }),
    {
        let mut s = self;
        s.retry.max_retries = max_retries;
        s.retry.enabled = max_retries > 0;
        s
    }

    /// Sets the base and maximum retry delays.
    pub fn with_retry_delays(self, base_delay: u64, max_delay: u64) -> (res: Self)
        ensures
            res == (ClientConfig { retry: RetryConfig { base_delay, max_delay, ..self.retry }, ..self }),
    {
        let mut s = self;
        s.retry.base_delay = base_delay;
        s.retry.max_delay = max_delay;
        s
    }

    /// Replaces the custom rate-limit phrases.
    pub fn with_custom_rate_limit_patterns(self, patterns: Vec<String>) -> (res: Self)
        ensures
            res == (ClientConfig {
                rate_limit: RateLimitConfig { custom_patterns: patterns, ..self.rate_limit },
                ..self
            }),
    {
        let mut s = self;
        s.rate_limit.custom_patterns = patterns;
        s
    }

    /// Turns detection by HTTP status on or off.
    pub fn with_status_detection(self, enabled: bool) -> (res: Self)
        ensures
            res == (ClientConfig {
                rate_limit: RateLimitConfig { detect_by_status: enabled, ..self.rate_limit },
                ..self
            }),
    {
        let mut s = self;
        s.rate_limit.detect_by_status = enabled;
        s
    }

    /// Turns detection by phrases on or off.
    pub fn with_pattern_detection(self, enabled: bool) -> (res: Self)
        ensures
            res == (ClientConfig {
                rate_limit: RateLimitConfig { detect_by_patterns: enabled, ..self.rate_limit },
                ..self
            }),
    {
        let mut s = self;
        s.rate_limit.detect_by_patterns = enabled;
        s
    }
}

/// One `key=value` piece of a query string; a piece without `=` is a key with an empty value,
/// and an empty piece is nothing.
pub open spec fn query_pair(piece: Seq<char>) -> Option<(Seq<char>, Seq<char>)> {
    match split_once_spec(piece, '=') {
        Some(kv) => Some(kv),
        None => if piece.len() > 0 { Some((piece, Seq::<char>::empty())) } else { None },
    }
}

/// The key and value pairs of the pieces of a query string, in order.
pub open spec fn query_pairs(pieces: Seq<Seq<char>>) -> Seq<(Seq<char>, Seq<char>)>
    decreases pieces.len(),
{
    if pieces.len() == 0 {
        Seq::empty()
    } else {
        let prev = query_pairs(pieces.drop_last());
        match query_pair(pieces.last()) {
            Some(p) => prev.push(p),
            None => prev,
        }
    }
}

/// The part of a URL before its first `?`.
pub open spec fn url_path(url: Seq<char>) -> Seq<char> {
    match split_once_spec(url, '?') {
        Some((p, _q)) => p,
        None => url,
    }
}

/// The query parameters of a URL: the pairs of the `&`-separated pieces after its first `?`.
pub open spec fn url_query_params(url: Seq<char>) -> Seq<(Seq<char>, Seq<char>)> {
    match split_once_spec(url, '?') {
        Some((_p, q)) => query_pairs(split_spec(q, '&')),
        None => Seq::empty(),
    }
}

/// The path of a request: for an absolute `http://` or `https://` URL, what follows the first `/`
/// after the eighth character (or `/` when there is none); otherwise the URL's path part itself.
pub open spec fn request_path(url: Seq<char>) -> Seq<char> {
    let p = url_path(url);
    if starts_with_seq(p, "http://"@) || starts_with_seq(p, "https://"@) {
        let rest = p.skip(8);
        if rest.contains('/') {
            rest.skip(index_of_char(rest, '/'))
        } else {
            "/"@
        }
    } else {
        p
    }
}

/// The URLs whose path can be cut at byte 8: an `http://` path must go on past its eighth byte
/// with a one-byte character.
pub open spec fn request_url_supported(url: Seq<char>) -> bool {
    let p = url_path(url);
    starts_with_seq(p, "http://"@) ==> p.len() > 7 && (p[7] as u32) < 128
}

/// `key=value`.
pub open spec fn param_text(p: (Seq<char>, Seq<char>)) -> Seq<char> {
    p.0 + "="@ + p.1
}

/// The short form of a request: method, path, and at most two parameters.
pub open spec fn short_description_text(
    method: Seq<char>,
    path: Seq<char>,
    params: Seq<(Seq<char>, Seq<char>)>,
) -> Seq<char> {
    method + " "@ + path + if params.len() == 0 {
        Seq::<char>::empty()
    } else if params.len() == 1 {
        "?"@ + param_text(params[0])
    } else if params.len() == 2 {
        "?"@ + param_text(params[0]) + "&"@ + param_text(params[1])
    } else {
        "?"@ + param_text(params[0]) + "..."@
    }
}

fn parse_query_pairs(pieces: &Vec<String>) -> (res: Vec<(String, String)>)
    ensures
        res.deep_view() == query_pairs(pieces.deep_view()),
{
    let mut out: Vec<(String, String)> = Vec::new();
    let mut i: usize = 0;
    while i < pieces.len()
        invariant
            i <= pieces@.len(),
            out.deep_view() == query_pairs(pieces.deep_view().take(i as int)),
        decreases pieces.len() - i,
    {
        let ghost t = pieces.deep_view().take(i + 1);
        assert(t.drop_last() =~= pieces.deep_view().take(i as int));
        assert(t.last() == pieces@[i as int]@);
        let ghost before = out.deep_view();
        let pc = chars_of(pieces[i].as_str());
        match split_once_chars(&pc, '=') {
            Some((k, v)) => {
                out.push((string_of(&k), string_of(&v)));
                assert(out.deep_view() =~= before.push((k@, v@)));
            },
            None => {
                if pc.len() > 0 {
                    out.push((pieces[i].clone(), String::new()));
                    assert(out.deep_view() =~= before.push((pc@, Seq::<char>::empty())));
                }
            },
        }
        i = i + 1;
    }
    assert(pieces.deep_view().take(i as int) =~= pieces.deep_view());
    out
}

fn path_of_request(p: &Vec<char>) -> (res: Vec<char>)
    requires
        starts_with_seq(p@, "http://"@) ==> p@.len() > 7,
    ensures
        res@ == (if starts_with_seq(p@, "http://"@) || starts_with_seq(p@, "https://"@) {
            let rest = p@.skip(8);
            if rest.contains('/') { rest.skip(index_of_char(rest, '/')) } else { "/"@ }
        } else {
            p@
        }),
{
    let http = chars_of("http://");
    let https = chars_of("https://");
    if chars_occur_at(p, &http, 0) || chars_occur_at(p, &https, 0) {
        proof {
            reveal_strlit("http://");
            reveal_strlit("https://");
        }
        assert(p@.len() >= 8);
        let rest = slice_chars(p, 8, p.len());
        assert(rest@ =~= p@.skip(8));
        match find_char(&rest, '/') {
            Some(k) => {
                proof {
                    lemma_index_of_char(rest@, '/', k as int);
                }
                let r = slice_chars(&rest, k, rest.len());
                assert(r@ =~= rest@.skip(k as int));
                r
            },
            None => chars_of("/"),
        }
    } else {
        let r = slice_chars(p, 0, p.len());
        assert(r@ =~= p@);
        r
    }
}

/// What is known of an HTTP request that the client made.
#[derive(Debug, Clone)]
pub struct RequestInfo {
    pub method: String,
    pub uri: String,
    pub query_params: Vec<(String, String)>,
    pub path: String,
}

impl RequestInfo {
    /// Describes a request by its URL and method: the path and the query parameters.
    pub fn from_url_and_method(url: &str, method: &str) -> (res: Self)
        requires
            request_url_supported(url@),
        ensures
            res.method@ == method@,
            res.uri@ == url@,
            res.query_params.deep_view() == url_query_params(url@),
            res.path@ == request_path(url@),
    {
        let cs = chars_of(url);
        let (path_chars, params) = match split_once_chars(&cs, '?') {
            Some((p, q)) => {
                let pieces = split_chars(&q, '&');
                (p, parse_query_pairs(&pieces))
            },
            None => (cs, Vec::new()),
        };
        assert(path_chars@ == url_path(url@));
        let path = path_of_request(&path_chars);
        RequestInfo {
            method: String::from_str(method),
            uri: String::from_str(url),
            query_params: params,
            path: string_of(&path),
        }
    }

    /// `METHOD /path`, followed by the parameters when there are one or two, or by the first
    /// parameter and `...` when there are more.
    pub fn short_description(&self) -> (res: String)
        ensures
            res@ == short_description_text(self.method@, self.path@, self.query_params.deep_view()),
    {
        let mut desc = self.method.clone();
        desc.append(" ");
        desc.append(self.path.as_str());
        let ghost head = desc@;
        let n = self.query_params.len();
        let ghost ps = self.query_params.deep_view();
        if n > 0 {
            desc.append("?");
            desc.append(self.query_params[0].0.as_str());
            desc.append("=");
            desc.append(self.query_params[0].1.as_str());
            if n == 2 {
                desc.append("&");
                desc.append(self.query_params[1].0.as_str());
                desc.append("=");
                desc.append(self.query_params[1].1.as_str());
            } else if n > 2 {
                desc.append("...");
            }
        }
        proof {
            if n == 0 {
                assert(desc@ =~= short_description_text(self.method@, self.path@, ps));
            } else if n == 1 {
                assert(desc@ =~= short_description_text(self.method@, self.path@, ps));
            } else if n == 2 {
                assert(desc@ =~= short_description_text(self.method@, self.path@, ps));
            } else {
                assert(desc@ =~= short_description_text(self.method@, self.path@, ps));
            }
        }
        desc
    }
}

/// How a rate limit was recognised.
#[derive(Debug, Clone, Copy, PartialEq, Eq)]
pub enum RateLimitType {
    Http429,
    Http403,
    ResponsePattern,
}

/// Something that happened in the client, for observers.
#[derive(Debug, Clone)]
#[allow(inconsistent_fields)]
pub enum ClientEvent {
    RequestStarted { request: RequestInfo },
    RequestCompleted { request: RequestInfo, status_code: u16, duration_ms: u64 },
    RateLimited { delay_seconds: u64, request: Option<RequestInfo>, rate_limit_type: RateLimitType },
    EditAttempted {
        edit: ExactScrobbleEdit,
        success: bool,
        error_message: Option<String>,
        duration_ms: u64,
    },
}

} // verus!
