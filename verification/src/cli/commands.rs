//! The commands of the tool, and what each one asks to be done.

use vstd::prelude::*;
use crate::types::{ScrobbleEdit, ScrobbleEditView};
use crate::cli::edit::create_scrobble_edit_from_args;

verus! {

broadcast use vstd::string::group_string_axioms;

/// What a search looks for.
#[derive(Debug, Clone, Copy, PartialEq, Eq)]
pub enum SearchType {
    Tracks,
    Albums,
    Artists,
}

/// The listings of the `list` command.
#[derive(Debug, Clone)]
pub enum ListCommands {
    Artists { limit: usize, details: bool, format: bool },
    Albums { artist: String, limit: usize, details: bool, format: bool },
    Tracks { artist: String, limit: usize, details: bool, format: bool },
    TracksDirect { artist: String, limit: usize, details: bool, format: bool },
    TracksByAlbum { artist: String, limit: usize, details: bool, format: bool },
    AlbumTracks { album: String, artist: String, details: bool, format: bool },
}

/// The commands of the tool.
#[derive(Debug, Clone)]
pub enum Commands {
    Edit {
        artist: String,
        track: Option<String>,
        album: Option<String>,
        album_artist: Option<String>,
        new_track: Option<String>,
        new_album: Option<String>,
        new_artist: Option<String>,
        new_album_artist: Option<String>,
        timestamp: Option<u64>,
        no_edit_all: bool,
        apply: bool,
        dry_run: bool,
    },
    Delete {
        recent_pages: Option<String>,
        timestamp_range: Option<String>,
        recent_offset: Option<String>,
        apply: bool,
        dry_run: bool,
    },
    Search { search_type: SearchType, query: String, limit: usize, offset: usize, details: bool },
    Show { offsets: Vec<u64> },
    List { command: ListCommands },
}

/// Which scrobbles a deletion selects.
#[derive(Debug, Clone)]
pub enum DeleteMode {
    RecentPages(String),
    TimestampRange(String),
    RecentOffset(String),
}

/// What a command asks to be done.
#[derive(Debug, Clone)]
pub enum CommandPlan {
    Edit { edit: ScrobbleEdit, dry_run: bool },
    Delete { mode: DeleteMode, dry_run: bool },
    Search { search_type: SearchType, query: String, limit: usize, offset: usize, details: bool },
    Show { offsets: Vec<u64> },
    List { command: ListCommands },
}

fn opt_as_str(o: &Option<String>) -> (res: Option<&str>)
    ensures
        match *o {
            Some(s) => res matches Some(r) && r@ == s@,
            None => res is None,
        },
{
    match o {
        Some(s) => Some(s.as_str()),
        None => None,
    }
}

/// Nothing is changed unless `--apply` is given without `--dry-run`.
pub fn is_dry_run(dry_run: bool, apply: bool) -> (res: bool)
    ensures
        res == (dry_run || !apply),
{
    dry_run || !apply
}

/// The message when `delete` is given no selection.
pub open spec fn no_delete_mode_text() -> Seq<char> {
    "Must specify one of: --recent-pages, --timestamp-range, or --recent-offset"@
}

/// The message when `show` is given no offset.
pub open spec fn no_offsets_text() -> Seq<char> {
    "Must specify at least one offset to show"@
}

/// What a command asks to be done: an edit (of every scrobble unless `--no-edit-all`) or a
/// deletion (by pages, by time, or by offset, in that order of preference), each a dry run
/// unless applied; a search, a showing of offsets (at least one), or a listing, as given.
pub fn plan_command(command: Commands) -> (res: Result<CommandPlan, String>)
    ensures
        match command {
            Commands::Edit { artist, track, album, album_artist, new_track, new_album, new_artist, new_album_artist, timestamp, no_edit_all, apply, dry_run } =>
                res matches Ok(CommandPlan::Edit { edit, dry_run: d }) && d == (dry_run || !apply) && edit@ == (ScrobbleEditView {
                    track_name_original: track.deep_view(),
                    album_name_original: album.deep_view(),
                    artist_name_original: artist@,
                    album_artist_name_original: album_artist.deep_view(),
                    track_name: new_track.deep_view(),
                    album_name: new_album.deep_view(),
                    artist_name: match new_artist { Some(a) => a@, None => artist@ },
                    album_artist_name: new_album_artist.deep_view(),
                    timestamp,
                    edit_all: !no_edit_all,
                }),
            Commands::Delete { recent_pages, timestamp_range, recent_offset, apply, dry_run } => match (recent_pages, timestamp_range, recent_offset) {
                (Some(p), _, _) => res matches Ok(CommandPlan::Delete { mode: DeleteMode::RecentPages(m), dry_run: d }) && m == p && d == (dry_run || !apply),
                (None, Some(t), _) => res matches Ok(CommandPlan::Delete { mode: DeleteMode::TimestampRange(m), dry_run: d }) && m == t && d == (dry_run || !apply),
                (None, None, Some(o)) => res matches Ok(CommandPlan::Delete { mode: DeleteMode::RecentOffset(m), dry_run: d }) && m == o && d == (dry_run || !apply),
                (None, None, None) => res matches Err(e) && e@ == no_delete_mode_text(),
            },
            Commands::Search { search_type, query, limit, offset, details } =>
                res == Ok::<CommandPlan, String>(CommandPlan::Search { search_type, query, limit, offset, details }),
            Commands::Show { offsets } => if offsets@.len() == 0 {
                res matches Err(e) && e@ == no_offsets_text()
            } else {
                res == Ok::<CommandPlan, String>(CommandPlan::Show { offsets })
            },
            Commands::List { command } => res == Ok::<CommandPlan, String>(CommandPlan::List { command }),
        },
{
    match command {
        Commands::Edit { artist, track, album, album_artist, new_track, new_album, new_artist, new_album_artist, timestamp, no_edit_all, apply, dry_run } => {
            let edit = create_scrobble_edit_from_args(
                artist.as_str(),
                opt_as_str(&track),
                opt_as_str(&album),
                opt_as_str(&album_artist),
                opt_as_str(&new_track),
                opt_as_str(&new_album),
                opt_as_str(&new_artist),
                opt_as_str(&new_album_artist),
                timestamp,
                !no_edit_all,
            );
            Ok(CommandPlan::Edit { edit, dry_run: is_dry_run(dry_run, apply) })
        },
        Commands::Delete { recent_pages, timestamp_range, recent_offset, apply, dry_run } => {
            let d = is_dry_run(dry_run, apply);
            match (recent_pages, timestamp_range, recent_offset) {
                (Some(p), _, _) => Ok(CommandPlan::Delete { mode: DeleteMode::RecentPages(p), dry_run: d }),
                (None, Some(t), _) => Ok(CommandPlan::Delete { mode: DeleteMode::TimestampRange(t), dry_run: d }),
                (None, None, Some(o)) => Ok(CommandPlan::Delete { mode: DeleteMode::RecentOffset(o), dry_run: d }),
                (None, None, None) => Err(String::from_str("Must specify one of: --recent-pages, --timestamp-range, or --recent-offset")),
            }
        },
        Commands::Search { search_type, query, limit, offset, details } => Ok(CommandPlan::Search { search_type, query, limit, offset, details }),
        Commands::Show { offsets } => {
            if offsets.len() == 0 {
                Err(String::from_str("Must specify at least one offset to show"))
            } else {
                Ok(CommandPlan::Show { offsets })
            }
        },
        Commands::List { command } => Ok(CommandPlan::List { command }),
    }
}

} // verus!
