//! Editing a track as it appears in a listing: what to change and how to describe it.

use vstd::prelude::*;
use crate::text::{u64_to_string, decimal_digits};
use crate::types::{ScrobbleEdit, ScrobbleEditView, Track, LastFmError, track_info_edit};

verus! {

broadcast use vstd::string::group_string_axioms;

/// Which scrobbles an edit reaches.
#[derive(Debug, Clone)]
pub enum EditStrategy {
    /// Every scrobble of the track.
    EditAll,
    /// The scrobbles at these times.
    SpecificScrobbles(Vec<u64>),
}

/// A track from a listing, ready to be edited.
#[derive(Debug, Clone)]
pub struct ScrobbleEditContext {
    pub track_name: String,
    pub artist_name: String,
    pub strategy: EditStrategy,
    pub album_name: Option<String>,
    pub playcount: u32,
}

/// Turns a listed item into an edit context.
pub trait IntoEditContext {
    fn into_edit_context(self) -> ScrobbleEditContext;
}

impl IntoEditContext for Track {
    /// The context of a listed track; listings carry no reliable album.
    fn into_edit_context(self) -> (res: ScrobbleEditContext)
        ensures
            res.track_name == self.name,
            res.artist_name == self.artist,
            res.playcount == self.playcount,
            res.album_name is None,
            res.strategy is EditAll,
    {
        ScrobbleEditContext::from_track_listing(self.name, self.artist, self.playcount, None)
    }
}

pub open spec fn or_seq(o: Option<Seq<char>>, d: Seq<char>) -> Seq<char> {
    match o {
        Some(s) => s,
        None => d,
    }
}

/// The edit that renames a track (and sets its album, by default the new track name), starting
/// from the scrobble of `track` on `album` by `artist` at `timestamp`.
pub open spec fn rename_edit(track: Seq<char>, album: Seq<char>, artist: Seq<char>, timestamp: u64, new_track: Seq<char>, new_album: Seq<char>, edit_all: bool) -> ScrobbleEditView {
    ScrobbleEditView { track_name: Some(new_track), album_name: Some(new_album), edit_all, ..track_info_edit(track, album, artist, timestamp) }
}

fn rename(track: &str, album: &str, artist: &str, timestamp: u64, new_track: &str, new_album: &str, edit_all: bool) -> (res: ScrobbleEdit)
    ensures
        res@ == rename_edit(track@, album@, artist@, timestamp, new_track@, new_album@, edit_all),
{
    ScrobbleEdit::from_track_info(track, album, artist, timestamp)
        .with_track_name(new_track)
        .with_album_name(new_album)
        .with_edit_all(edit_all)
}

impl ScrobbleEditContext {
    /// The context of a listed track: every scrobble is edited.
    pub fn from_track_listing(track_name: String, artist_name: String, playcount: u32, album_name: Option<String>) -> (res: Self)
        ensures
            res.track_name == track_name,
            res.artist_name == artist_name,
            res.playcount == playcount,
            res.album_name == album_name,
            res.strategy is EditAll,
    {
        ScrobbleEditContext { track_name, artist_name, album_name, playcount, strategy: EditStrategy::EditAll }
    }

    /// The edit that gives the track a new name and album (by default, the new name), starting
    /// from its album (by default, its name): all scrobbles at time 0, or the first of the given
    /// times (0 when there is none).
    pub fn create_edit(&self, new_track_name: String, new_album_name: Option<String>) -> (res: ScrobbleEdit)
        ensures
            res@ == rename_edit(
                self.track_name@,
                or_seq(self.album_name.deep_view(), self.track_name@),
                self.artist_name@,
                match self.strategy {
                    EditStrategy::EditAll => 0,
                    EditStrategy::SpecificScrobbles(ts) => if ts@.len() > 0 { ts@[0] } else { 0 },
                },
                new_track_name@,
                or_seq(new_album_name.deep_view(), new_track_name@),
                self.strategy is EditAll,
            ),
    {
        let original_album = match &self.album_name {
            Some(a) => a.as_str(),
            None => self.track_name.as_str(),
        };
        let target_album = match &new_album_name {
            Some(a) => a.as_str(),
            None => new_track_name.as_str(),
        };
        match &self.strategy {
            EditStrategy::EditAll => rename(
                self.track_name.as_str(),
                original_album,
                self.artist_name.as_str(),
                0,
                new_track_name.as_str(),
                target_album,
                true,
            ),
            EditStrategy::SpecificScrobbles(timestamps) => {
                let timestamp = if timestamps.len() > 0 { timestamps[0] } else { 0 };
                rename(
                    self.track_name.as_str(),
                    original_album,
                    self.artist_name.as_str(),
                    timestamp,
                    new_track_name.as_str(),
                    target_album,
                    false,
                )
            },
        }
    }

    /// The edit to make once the track's most recent scrobble has been looked for: with every
    /// scrobble to edit and a dated recent scrobble, the rename starts from that time (the track
    /// name standing for the album); otherwise it is `create_edit`.
    pub fn edit_for_recent_scrobble(&self, recent: &Option<Track>, new_track_name: String, new_album_name: Option<String>) -> (res: ScrobbleEdit)
        ensures
            match (self.strategy, *recent) {
                (EditStrategy::EditAll, Some(t)) if t.timestamp is Some => res@ == rename_edit(
                    self.track_name@,
                    self.track_name@,
                    self.artist_name@,
                    t.timestamp->0,
                    new_track_name@,
                    or_seq(new_album_name.deep_view(), new_track_name@),
                    true,
                ),
                _ => res@ == self.create_edit_spec(new_track_name@, new_album_name.deep_view()),
            },
    {
        match &self.strategy {
            EditStrategy::EditAll => match recent {
                Some(t) => match t.timestamp {
                    Some(ts) => {
                        let target = match &new_album_name {
                            Some(a) => a.as_str(),
                            None => new_track_name.as_str(),
                        };
                        return rename(
                            self.track_name.as_str(),
                            self.track_name.as_str(),
                            self.artist_name.as_str(),
                            ts,
                            new_track_name.as_str(),
                            target,
                            true,
                        );
                    },
                    None => {},
                },
                None => {},
            },
            EditStrategy::SpecificScrobbles(_) => {},
        }
        self.create_edit(new_track_name, new_album_name)
    }

    pub open spec fn create_edit_spec(&self, new_track: Seq<char>, new_album: Option<Seq<char>>) -> ScrobbleEditView {
        rename_edit(
            self.track_name@,
            or_seq(self.album_name.deep_view(), self.track_name@),
            self.artist_name@,
            match self.strategy {
                EditStrategy::EditAll => 0,
                EditStrategy::SpecificScrobbles(ts) => if ts@.len() > 0 { ts@[0] } else { 0 },
            },
            new_track,
            or_seq(new_album, new_track),
            self.strategy is EditAll,
        )
    }

    /// The edit made from the track's most recent scrobble, which must be found and dated: the
    /// rename of every scrobble from that one's name, artist and time.
    pub fn edit_from_recent_scrobble(&self, recent: &Option<Track>, new_track_name: &str, new_album_name: Option<&str>) -> (res: Result<ScrobbleEdit, LastFmError>)
        ensures
            match *recent {
                Some(t) => match t.timestamp {
                    Some(ts) => res matches Ok(e) && e@ == rename_edit(t.name@, t.name@, t.artist@, ts, new_track_name@,
                        match new_album_name { Some(a) => a@, None => new_track_name@ }, true),
                    None => res matches Err(LastFmError::Parse(m)) && m@ == "Found recent scrobble but no timestamp available"@,
                },
                None => res matches Err(LastFmError::Parse(m)) && m@ == "No recent scrobble found for '"@ + self.track_name@
                    + "' by '"@ + self.artist_name@ + "'"@,
            },
    {
        match recent {
            Some(t) => match t.timestamp {
                Some(ts) => {
                    let target = match new_album_name {
                        Some(a) => a,
                        None => new_track_name,
                    };
                    Ok(rename(t.name.as_str(), t.name.as_str(), t.artist.as_str(), ts, new_track_name, target, true))
                },
                None => Err(LastFmError::Parse(String::from_str("Found recent scrobble but no timestamp available"))),
            },
            None => {
                let mut m = String::from_str("No recent scrobble found for '");
                m.append(self.track_name.as_str());
                m.append("' by '");
                m.append(self.artist_name.as_str());
                m.append("'");
                Err(LastFmError::Parse(m))
            },
        }
    }

    /// A sentence that says what the edit will do.
    pub fn describe_edit(&self, new_track_name: &str) -> (res: String)
        ensures
            res@ == match self.strategy {
                EditStrategy::EditAll => "Will edit ALL instances of '"@ + self.track_name@ + "' by '"@ + self.artist_name@
                    + "' to '"@ + new_track_name@ + "' (approximately "@ + decimal_digits(self.playcount as nat)
                    + " scrobbles)"@,
                EditStrategy::SpecificScrobbles(ts) => "Will edit "@ + decimal_digits(ts@.len()) + " specific scrobbles of '"@
                    + self.track_name@ + "' by '"@ + self.artist_name@ + "' to '"@ + new_track_name@ + "'"@,
            },
    {
        match &self.strategy {
            EditStrategy::EditAll => {
                let mut m = String::from_str("Will edit ALL instances of '");
                m.append(self.track_name.as_str());
                m.append("' by '");
                m.append(self.artist_name.as_str());
                m.append("' to '");
                m.append(new_track_name);
                m.append("' (approximately ");
                m.append(u64_to_string(self.playcount as u64).as_str());
                m.append(" scrobbles)");
                m
            },
            EditStrategy::SpecificScrobbles(timestamps) => {
                let mut m = String::from_str("Will edit ");
                m.append(u64_to_string(timestamps.len() as u64).as_str());
                m.append(" specific scrobbles of '");
                m.append(self.track_name.as_str());
                m.append("' by '");
                m.append(self.artist_name.as_str());
                m.append("' to '");
                m.append(new_track_name);
                m.append("'");
                m
            },
        }
    }
}

} // verus!
