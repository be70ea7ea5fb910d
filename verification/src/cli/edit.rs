//! The `edit` command: the requested edit from the arguments.

use vstd::prelude::*;
use crate::types::{ScrobbleEdit, ScrobbleEditView};

verus! {

broadcast use vstd::string::group_string_axioms;

pub open spec fn opt_str_view(o: Option<&str>) -> Option<Seq<char>> {
    match o {
        Some(s) => Some(s@),
        None => None,
    }
}

fn opt_string(o: Option<&str>) -> (res: Option<String>)
    ensures
        res.deep_view() == opt_str_view(o),
{
    match o {
        Some(s) => Some(String::from_str(s)),
        None => None,
    }
}

/// The requested edit: the given originals and new values; the new artist is the original
/// artist unless another is given.
pub fn create_scrobble_edit_from_args(
    artist: &str,
    track: Option<&str>,
    album: Option<&str>,
    album_artist: Option<&str>,
    new_track: Option<&str>,
    new_album: Option<&str>,
    new_artist: Option<&str>,
    new_album_artist: Option<&str>,
    timestamp: Option<u64>,
    edit_all: bool,
) -> (res: ScrobbleEdit)
    ensures
        res@ == (ScrobbleEditView {
            track_name_original: opt_str_view(track),
            album_name_original: opt_str_view(album),
            artist_name_original: artist@,
            album_artist_name_original: opt_str_view(album_artist),
            track_name: opt_str_view(new_track),
            album_name: opt_str_view(new_album),
            artist_name: match new_artist {
                Some(a) => a@,
                None => artist@,
            },
            album_artist_name: opt_str_view(new_album_artist),
            timestamp,
            edit_all,
        }),
{
    let new_artist = match new_artist {
        Some(a) => a,
        None => artist,
    };
    ScrobbleEdit::new(
        opt_string(track),
        opt_string(album),
        String::from_str(artist),
        opt_string(album_artist),
        opt_string(new_track),
        opt_string(new_album),
        String::from_str(new_artist),
        opt_string(new_album_artist),
        timestamp,
        edit_all,
    )
}

} // verus!
