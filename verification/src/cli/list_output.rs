//! What the `list` command reports.

use vstd::prelude::*;
use crate::text::{u64_to_string, decimal_digits};

verus! {

broadcast use vstd::string::group_string_axioms;

/// The line that announces a listing, if the command names one and its arguments are given.
pub open spec fn started_text(command: Seq<char>, artist: Option<Seq<char>>, album: Option<Seq<char>>) -> Option<Seq<char>> {
    if command == "artists"@ {
        Some("Listing artists in your library"@)
    } else if command == "albums"@ {
        match artist {
            Some(a) => Some("Listing albums for artist: '"@ + a + "'"@),
            None => None,
        }
    } else if command == "tracks"@ || command == "tracks-direct"@ {
        match artist {
            Some(a) => Some("Listing tracks for artist: '"@ + a + "'"@),
            None => None,
        }
    } else if command == "tracks-by-album"@ {
        match artist {
            Some(a) => Some("Listing tracks by album for artist: '"@ + a + "'"@),
            None => None,
        }
    } else if command == "album-tracks"@ {
        match (album, artist) {
            (Some(al), Some(a)) => Some("Listing tracks for album: '"@ + al + "' by '"@ + a + "'"@),
            _ => None,
        }
    } else {
        None
    }
}

pub open spec fn opt_view(o: Option<&str>) -> Option<Seq<char>> {
    match o {
        Some(s) => Some(s@),
        None => None,
    }
}

fn is(command: &str, name: &str) -> (res: bool)
    ensures
        res == (command@ == name@),
{
    String::from_str(command).eq(&String::from_str(name))
}

fn quoted(prefix: &str, a: &str) -> (res: String)
    ensures
        res@ == prefix@ + a@ + "'"@,
{
    let mut m = String::from_str(prefix);
    m.append(a);
    m.append("'");
    m
}

/// The line that announces a listing, logged at information level.
pub fn log_started(command: &str, artist: Option<&str>, album: Option<&str>) -> (res: Option<String>)
    ensures
        res.deep_view() == started_text(command@, opt_view(artist), opt_view(album)),
{
    if is(command, "artists") {
        Some(String::from_str("Listing artists in your library"))
    } else if is(command, "albums") {
        match artist {
            Some(a) => Some(quoted("Listing albums for artist: '", a)),
            None => None,
        }
    } else if is(command, "tracks") || is(command, "tracks-direct") {
        match artist {
            Some(a) => Some(quoted("Listing tracks for artist: '", a)),
            None => None,
        }
    } else if is(command, "tracks-by-album") {
        match artist {
            Some(a) => Some(quoted("Listing tracks by album for artist: '", a)),
            None => None,
        }
    } else if is(command, "album-tracks") {
        match (album, artist) {
            (Some(al), Some(a)) => {
                let mut m = String::from_str("Listing tracks for album: '");
                m.append(al);
                m.append("' by '");
                m.append(a);
                m.append("'");
                Some(m)
            },
            _ => None,
        }
    } else {
        None
    }
}

/// `s` when there is more than one item.
pub open spec fn plural(n: nat) -> Seq<char> {
    if n == 1 { Seq::empty() } else { "s"@ }
}

/// `Found`/`Listed` `n` `noun`(s) followed by `tail`.
pub open spec fn count_text(verb: Seq<char>, n: nat, noun: Seq<char>, tail: Seq<char>) -> Seq<char> {
    verb + " "@ + decimal_digits(n) + " "@ + noun + plural(n) + tail
}

fn count_line(verb: &str, n: usize, noun: &str, tail: &str) -> (res: String)
    ensures
        res@ == count_text(verb@, n as nat, noun@, tail@),
{
    let mut m = String::from_str(verb);
    m.append(" ");
    m.append(u64_to_string(n as u64).as_str());
    m.append(" ");
    m.append(noun);
    if n != 1 {
        m.append("s");
    }
    m.append(tail);
    m
}

/// The line that sums up a listing, if the command names one and its arguments are given.
pub open spec fn summary_text(command: Seq<char>, total: nat, artist: Option<Seq<char>>) -> Option<Seq<char>> {
    if command == "artists"@ {
        if total == 0 {
            Some("No artists found in your library"@)
        } else {
            Some(count_text("Found"@, total, "artist"@, " in your library"@))
        }
    } else if command == "albums"@ {
        match artist {
            Some(a) => if total == 0 {
                Some("No albums found for '"@ + a + "'"@)
            } else {
                Some(count_text("Found"@, total, "album"@, " for '"@ + a + "'"@))
            },
            None => None,
        }
    } else if command == "tracks"@ || command == "tracks-direct"@ {
        match artist {
            Some(a) => if total == 0 {
                Some("No tracks found for '"@ + a + "'"@)
            } else {
                Some(count_text("Found"@, total, "track"@, " for '"@ + a + "'"@))
            },
            None => None,
        }
    } else if command == "tracks-by-album"@ {
        match artist {
            Some(a) => if total == 0 {
                Some("No albums found for '"@ + a + "'"@)
            } else {
                Some(count_text("Listed"@, total, "album"@, " for '"@ + a + "'"@))
            },
            None => None,
        }
    } else if command == "album-tracks"@ {
        if total == 0 {
            Some("No tracks found for this album"@)
        } else {
            Some(count_text("Found"@, total, "track"@, " for album"@))
        }
    } else {
        None
    }
}

/// The line that sums up a listing, logged at information level.
pub fn log_summary(command: &str, total_items: usize, artist: Option<&str>) -> (res: Option<String>)
    ensures
        res.deep_view() == summary_text(command@, total_items as nat, opt_view(artist)),
{
    if is(command, "artists") {
        if total_items == 0 {
            Some(String::from_str("No artists found in your library"))
        } else {
            Some(count_line("Found", total_items, "artist", " in your library"))
        }
    } else if is(command, "albums") {
        match artist {
            Some(a) => if total_items == 0 {
                Some(quoted("No albums found for '", a))
            } else {
                Some(count_line("Found", total_items, "album", quoted(" for '", a).as_str()))
            },
            None => None,
        }
    } else if is(command, "tracks") || is(command, "tracks-direct") {
        match artist {
            Some(a) => if total_items == 0 {
                Some(quoted("No tracks found for '", a))
            } else {
                Some(count_line("Found", total_items, "track", quoted(" for '", a).as_str()))
            },
            None => None,
        }
    } else if is(command, "tracks-by-album") {
        match artist {
            Some(a) => if total_items == 0 {
                Some(quoted("No albums found for '", a))
            } else {
                Some(count_line("Listed", total_items, "album", quoted(" for '", a).as_str()))
            },
            None => None,
        }
    } else if is(command, "album-tracks") {
        if total_items == 0 {
            Some(String::from_str("No tracks found for this album"))
        } else {
            Some(count_line("Found", total_items, "track", " for album"))
        }
    } else {
        None
    }
}

} // verus!
