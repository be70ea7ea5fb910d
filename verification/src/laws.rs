//! Properties that hold across the library's operations.

use vstd::prelude::*;
use crate::text::{decimal_digits, parse_u64_spec, lemma_parse_decimal_digits, starts_with_seq};
use crate::types::{SingleEditResponse, count_successes, count_failures, lemma_counts_partition};
use crate::delete_manifest::{DeleteManifestEntry, DeleteTarget, entry_matches, target_matches};
use crate::retry::{RetryState, RetryAction, AttemptOutcome, retry_step_spec, backoff_delay_spec, min_int};
use crate::types::RetryConfig;
use crate::login::{merge_set_cookie, without_prefixed, set_cookie_value, cookie_name};
use crate::vcr::{header_matches, header_lookup, is_unstable_header};
use crate::cli::delete::{dated_in_range, offset_range};
use crate::client::{applied_edit, fold_edit_rows, discovered_ok, lemma_fold_edit_rows_ok, DiscoverState};
use crate::html::RowView;
use crate::parsing::{
    extracted_tracks, fold_by_name, fold_by_input, table_tracks, GatherState, lemma_fold_by_name_ok,
    lemma_fold_by_input_ok, lemma_fold_by_row_ok, page_albums, row_albums, chartlist_rows, name_row_cells,
    lemma_fold_by_name_all_of, lemma_fold_by_input_all_of, lemma_fold_by_row_all_of, lemma_row_tracks_all_of,
    lemma_fold_by_album_all_by, lemma_row_albums_all_by, AlbumGatherState, search_tracks,
    search_track_by_selectors, lemma_search_tracks_from_rows, lemma_search_track_by_selectors,
};
use crate::cli::utils::range_result;
use crate::iterator::before_stop;
use crate::types::{ScrobbleEdit, TrackView, ExactEditView, ExactScrobbleEdit, edit_form_fields, form_carries_edit};
use crate::discovery::with_album_artist;

verus! {

/// A number written in decimal reads back as the same number.
pub proof fn law_decimal_round_trip(n: u64)
    ensures
        parse_u64_spec(decimal_digits(n as nat)) == Some(n),
{
    lemma_parse_decimal_digits(n as nat, u64::MAX as nat);
}

/// Every result of an edit is counted once: as a success or as a failure.
pub proof fn law_edit_counts_partition(results: Seq<SingleEditResponse>)
    ensures
        count_successes(results) + count_failures(results) == results.len(),
{
    lemma_counts_partition(results);
}

/// An edit that fully succeeded has some success; one that fully failed has none.
pub proof fn law_all_successful_implies_any(results: Seq<SingleEditResponse>)
    ensures
        (results.len() > 0 && forall|i: int| 0 <= i < results.len() ==> #[trigger] results[i].success) ==> exists|i: int|
            0 <= i < results.len() && #[trigger] results[i].success,
        count_successes(results) == results.len() <==> forall|i: int| 0 <= i < results.len() ==> #[trigger] results[i].success,
{
    lemma_counts_partition(results);
    if results.len() > 0 && forall|i: int| 0 <= i < results.len() ==> #[trigger] results[i].success {
        assert(results[0].success);
    }
}

/// Reading back the targets of a manifest gives the targets it was made from.
pub proof fn law_manifest_round_trip(targets: Seq<DeleteTarget>, entries: Seq<DeleteManifestEntry>, back: Seq<DeleteTarget>)
    requires
        entries.len() == targets.len(),
        forall|i: int| 0 <= i < targets.len() ==> entry_matches(#[trigger] entries[i], targets[i], i),
        back.len() == entries.len(),
        forall|i: int| 0 <= i < back.len() ==> target_matches(#[trigger] back[i], entries[i]),
    ensures
        back.len() == targets.len(),
        forall|i: int| 0 <= i < back.len() ==> {
            &&& (#[trigger] back[i]).offset == targets[i].offset
            &&& back[i].artist@ == targets[i].artist@
            &&& back[i].track@ == targets[i].track@
            &&& back[i].album.deep_view() == targets[i].album.deep_view()
            &&& back[i].timestamp == targets[i].timestamp
        },
{
    assert forall|i: int| 0 <= i < back.len() implies {
        &&& (#[trigger] back[i]).offset == targets[i].offset
        &&& back[i].artist@ == targets[i].artist@
        &&& back[i].track@ == targets[i].track@
        &&& back[i].album.deep_view() == targets[i].album.deep_view()
        &&& back[i].timestamp == targets[i].timestamp
    } by {
        assert(entry_matches(entries[i], targets[i], i));
        assert(target_matches(back[i], entries[i]));
    }
}

/// The wait before a retry never exceeds the configured maximum, nor the linear backoff.
pub proof fn law_backoff_capped(config: RetryConfig, retries: nat, retry_after: nat)
    ensures
        backoff_delay_spec(config, retries, retry_after) <= config.max_delay,
        backoff_delay_spec(config, retries, retry_after) <= retry_after + retries * 30,
{
}

/// A retried operation never makes more retries than configured, and never retries at all when
/// retrying is disabled.
pub proof fn law_retries_bounded(config: RetryConfig, state: RetryState, outcome: AttemptOutcome)
    requires
        state.retries <= config.max_retries,
    ensures
        retry_step_spec(config, state, outcome).0.retries <= config.max_retries,
        retry_step_spec(config, state, outcome).1 is Wait ==> config.enabled && state.retries < config.max_retries,
        !config.enabled ==> retry_step_spec(config, state, outcome).0.retries == state.retries,
{
}

/// The time spent waiting grows by exactly the delay of each wait.
pub proof fn law_wait_time_accumulates(config: RetryConfig, state: RetryState, outcome: AttemptOutcome)
    ensures
        match retry_step_spec(config, state, outcome).1 {
            RetryAction::Wait { delay } => retry_step_spec(config, state, outcome).0.total_retry_time == state.total_retry_time + delay
                || state.total_retry_time + delay > u64::MAX,
            _ => retry_step_spec(config, state, outcome).0.total_retry_time == state.total_retry_time,
        },
{
}

pub proof fn lemma_without_prefixed(cs: Seq<Seq<char>>, prefix: Seq<char>)
    ensures
        forall|i: int| 0 <= i < without_prefixed(cs, prefix).len() ==> !starts_with_seq(#[trigger] without_prefixed(cs, prefix)[i], prefix),
        forall|c: Seq<char>| cs.contains(c) && !starts_with_seq(c, prefix) ==> without_prefixed(cs, prefix).contains(c),
    decreases cs.len(),
{
    if cs.len() > 0 {
        lemma_without_prefixed(cs.drop_last(), prefix);
        let prev = without_prefixed(cs.drop_last(), prefix);
        assert forall|c: Seq<char>| cs.contains(c) && !starts_with_seq(c, prefix) implies without_prefixed(cs, prefix).contains(c) by {
            let k = choose|k: int| 0 <= k < cs.len() && cs[k] == c;
            if k < cs.len() - 1 {
                assert(cs.drop_last()[k] == c);
                assert(cs.drop_last().contains(c));
                let j = choose|j: int| 0 <= j < prev.len() && prev[j] == c;
                if !starts_with_seq(cs.last(), prefix) {
                    assert(prev.push(cs.last())[j] == c);
                }
            } else {
                assert(without_prefixed(cs, prefix).last() == c);
            }
        }
    }
}

/// After a `Set-Cookie` header, the new cookie is the only one of its name, and every cookie of
/// another name is kept.
pub proof fn law_cookie_replaced(cookies: Seq<Seq<char>>, header: Seq<char>)
    ensures
        ({
            let merged = merge_set_cookie(cookies, header);
            let v = set_cookie_value(header);
            let prefix = cookie_name(v) + "="@;
            &&& merged.last() == v
            &&& forall|i: int| 0 <= i < merged.len() - 1 ==> !starts_with_seq(#[trigger] merged[i], prefix)
            &&& forall|c: Seq<char>| cookies.contains(c) && !starts_with_seq(c, prefix) ==> merged.contains(c)
        }),
{
    let v = set_cookie_value(header);
    let prefix = cookie_name(v) + "="@;
    lemma_without_prefixed(cookies, prefix);
    let kept = without_prefixed(cookies, prefix);
    let merged = kept.push(v);
    assert forall|i: int| 0 <= i < merged.len() - 1 implies !starts_with_seq(#[trigger] merged[i], prefix) by {
        assert(merged[i] == kept[i]);
    }
    assert forall|c: Seq<char>| cookies.contains(c) && !starts_with_seq(c, prefix) implies merged.contains(c) by {
        let j = choose|j: int| 0 <= j < kept.len() && kept[j] == c;
        assert(merged[j] == c);
    }
}

/// A request with distinct header names matches its own recording.
pub proof fn law_matcher_reflexive(method: Seq<char>, headers: Seq<(Seq<char>, Seq<Seq<char>>)>)
    requires
        forall|i: int, j: int| 0 <= i < j < headers.len() ==> (#[trigger] headers[i]).0 != (#[trigger] headers[j]).0,
    ensures
        forall|i: int| 0 <= i < headers.len() ==> header_matches(method, headers, (#[trigger] headers[i]).0, headers[i].1),
{
    assert forall|i: int| 0 <= i < headers.len() implies header_matches(method, headers, (#[trigger] headers[i]).0, headers[i].1) by {
        lemma_lookup_distinct(headers, i);
    }
}

pub proof fn lemma_lookup_distinct(headers: Seq<(Seq<char>, Seq<Seq<char>>)>, i: int)
    requires
        0 <= i < headers.len(),
        forall|a: int, b: int| 0 <= a < b < headers.len() ==> (#[trigger] headers[a]).0 != (#[trigger] headers[b]).0,
    ensures
        header_lookup(headers, headers[i].0) == Some(headers[i].1),
    decreases headers.len(),
{
    if i > 0 {
        let rest = headers.drop_first();
        assert(headers[0].0 != headers[i].0);
        assert forall|a: int, b: int| 0 <= a < b < rest.len() implies (#[trigger] rest[a]).0 != (#[trigger] rest[b]).0 by {
            assert(rest[a] == headers[a + 1]);
            assert(rest[b] == headers[b + 1]);
        }
        assert(rest[i - 1] == headers[i]);
        lemma_lookup_distinct(rest, i - 1);
    }
}

/// A range that reads successfully starts no later than it ends.
pub proof fn law_range_ordered(range: Seq<char>, kind: Seq<char>)
    ensures
        range_result(range, kind) matches Ok((s, e)) ==> s <= e,
{
}

/// A walk that stops at a time yields no scrobble from that time or earlier.
pub proof fn law_stop_excludes_older(tracks: Seq<TrackView>, stop: u64)
    ensures
        forall|i: int| 0 <= i < before_stop(tracks, stop).0.len() ==> ((#[trigger] before_stop(tracks, stop).0[i]).timestamp matches Some(t)
            ==> t > stop),
        before_stop(tracks, stop).0.len() <= tracks.len(),
    decreases tracks.len(),
{
    if tracks.len() > 0 {
        law_stop_excludes_older(tracks.drop_first(), stop);
        if !(tracks[0].timestamp matches Some(t) && t <= stop) {
            let rest = before_stop(tracks.drop_first(), stop).0;
            assert forall|i: int| 0 <= i < before_stop(tracks, stop).0.len() implies ((#[trigger] before_stop(tracks, stop).0[i]).timestamp matches Some(t)
                ==> t > stop) by {
                if i > 0 {
                    assert(before_stop(tracks, stop).0[i] == rest[i - 1]);
                }
            }
        }
    }
}

/// Filtering by album artist keeps only edits of that album artist, and all of them.
pub proof fn law_album_artist_filter(edits: Seq<ExactEditView>, target: Seq<char>)
    ensures
        forall|i: int| 0 <= i < with_album_artist(edits, target).len() ==> (#[trigger] with_album_artist(edits, target)[i]).album_artist_name_original == target,
        forall|e: ExactEditView| edits.contains(e) && e.album_artist_name_original == target ==> with_album_artist(edits, target).contains(e),
        with_album_artist(edits, target).len() <= edits.len(),
    decreases edits.len(),
{
    if edits.len() > 0 {
        let p = edits.drop_last();
        law_album_artist_filter(p, target);
        let prev = with_album_artist(p, target);
        assert forall|e: ExactEditView| edits.contains(e) && e.album_artist_name_original == target implies with_album_artist(edits, target).contains(e) by {
            let k = choose|k: int| 0 <= k < edits.len() && edits[k] == e;
            if k < edits.len() - 1 {
                assert(p[k] == e);
                assert(p.contains(e));
                let j = choose|j: int| 0 <= j < prev.len() && prev[j] == e;
                if edits.last().album_artist_name_original == target {
                    assert(prev.push(edits.last())[j] == e);
                }
            } else {
                assert(with_album_artist(edits, target).last() == e);
            }
        }
    }
}

/// Requests that differ only in unstable headers (cookies, sessions, tokens) match the same
/// recordings.
pub proof fn law_matcher_ignores_unstable_headers(
    method: Seq<char>,
    first: Seq<(Seq<char>, Seq<Seq<char>>)>,
    second: Seq<(Seq<char>, Seq<Seq<char>>)>,
    recorded: Seq<(Seq<char>, Seq<Seq<char>>)>,
)
    requires
        forall|n: Seq<char>| !is_unstable_header(n) ==> header_lookup(first, n) == header_lookup(second, n),
    ensures
        forall|i: int| 0 <= i < recorded.len() ==> (header_matches(method, first, (#[trigger] recorded[i]).0, recorded[i].1)
            <==> header_matches(method, second, recorded[i].0, recorded[i].1)),
{
}

/// Every scrobble chosen for deletion by time lies in the range asked for.
pub proof fn law_deleted_in_time_range(ts: Seq<TrackView>, start: u64, end: u64)
    ensures
        forall|i: int| 0 <= i < dated_in_range(ts, start, end).len() ==> start <= (#[trigger] dated_in_range(ts, start, end)[i]).2 <= end,
        dated_in_range(ts, start, end).len() <= ts.len(),
    decreases ts.len(),
{
    if ts.len() > 0 {
        law_deleted_in_time_range(ts.drop_last(), start, end);
        let prev = dated_in_range(ts.drop_last(), start, end);
        assert forall|i: int| 0 <= i < dated_in_range(ts, start, end).len() implies start <= (#[trigger] dated_in_range(ts, start, end)[i]).2 <= end by {
            if i < prev.len() {
                assert(dated_in_range(ts, start, end)[i] == prev[i]);
            }
        }
    }
}

/// The scrobbles chosen by offset are those at the offsets asked for, in order, within what
/// was collected.
pub proof fn law_deleted_at_offsets(ts: Seq<TrackView>, start: u64, end: u64)
    requires
        start <= end,
    ensures
        offset_range(ts, start, end) matches Some(v) ==> v.len() >= 1 && forall|i: int| 0 <= i < v.len() ==> {
            &&& (#[trigger] v[i]).0 == start + i
            &&& start <= v[i].0 <= end
            &&& v[i].0 < ts.len()
            &&& v[i].1 == ts[v[i].0 as int]
        },
        offset_range(ts, start, end) is None <==> ts.len() <= start,
{
}

/// The tracks read from an artist or album page have distinct names, and there are at most 50.
pub proof fn law_extracted_tracks_distinct(doc: Seq<char>, artist: Seq<char>, album: Option<Seq<char>>)
    ensures
        extracted_tracks(doc, artist, album).len() <= 50,
        forall|i: int, j: int| 0 <= i < j < extracted_tracks(doc, artist, album).len()
            ==> (#[trigger] extracted_tracks(doc, artist, album)[i]).name != (#[trigger] extracted_tracks(doc, artist, album)[j]).name,
{
    let start: GatherState = (Seq::empty(), Seq::empty(), false);
    let es1 = crate::html::elements_in(doc, "[data-track-name]"@);
    lemma_fold_by_name_ok(doc, artist, album, es1, start);
    let s1 = fold_by_name(doc, artist, album, es1, start);
    let s2 = if s1.0.len() < 50 {
        let es2 = crate::html::elements_in(doc, "input[name='track']"@);
        lemma_fold_by_input_ok(doc, artist, album, es2, (s1.0, s1.1, false));
        fold_by_input(doc, artist, album, es2, (s1.0, s1.1, false))
    } else {
        s1
    };
    if s2.0.len() < 10 {
        lemma_fold_by_row_ok(table_tracks(doc, artist, album), s2);
    }
}

/// The edits read from a page of a track's scrobbles are of that track and artist, for every
/// scrobble, one per album and album artist, and none for a pair already found on an earlier page.
pub proof fn law_scrobble_edits_one_per_album(
    rows: Seq<RowView>,
    seen_before: Seq<(Seq<char>, Seq<char>)>,
    track: Seq<char>,
    artist: Seq<char>,
)
    ensures
        discovered_ok(fold_edit_rows(rows, (Seq::empty(), seen_before), track, artist), seen_before, track, artist),
{
    let start: DiscoverState = (Seq::empty(), seen_before);
    assert forall|k: int| 0 <= k < seen_before.len() implies start.1.contains(#[trigger] seen_before[k]) by {}
    lemma_fold_edit_rows_ok(rows, start, seen_before, track, artist);
}


/// A field that is the only one of its name carries its value.
proof fn lemma_form_carries_at(f: Seq<(Seq<char>, Seq<char>)>, k: int, name: Seq<char>, value: Seq<char>)
    requires
        0 <= k < f.len(),
        f[k] == (name, value),
        forall|i: int| 0 <= i < f.len() && i != k ==> (#[trigger] f[i]).0 != name,
    ensures
        crate::types::form_carries(f, name, value),
{
}

/// The form that submits an edit sends each of the edit's values under its own name: the new
/// track, artist, album and album artist names under the plain names, the names being replaced
/// under the `_original` names, and the token; no other field has one of those names.
pub proof fn law_edit_form_carries_values(e: ExactScrobbleEdit, csrf: Seq<char>)
    ensures
        form_carries_edit(edit_form_fields(e, csrf), e, csrf),
{
    reveal_strlit("csrfmiddlewaretoken");
    reveal_strlit("track_name_original");
    reveal_strlit("track_name");
    reveal_strlit("artist_name_original");
    reveal_strlit("artist_name");
    reveal_strlit("album_name_original");
    reveal_strlit("album_name");
    reveal_strlit("album_artist_name_original");
    reveal_strlit("album_artist_name");
    reveal_strlit("timestamp");
    reveal_strlit("edit_all");
    reveal_strlit("submit");
    reveal_strlit("ajax");
    let f = edit_form_fields(e, csrf);
    let head = seq![
        ("csrfmiddlewaretoken"@, csrf),
        ("track_name_original"@, e.track_name_original@),
        ("track_name"@, e.track_name@),
        ("artist_name_original"@, e.artist_name_original@),
        ("artist_name"@, e.artist_name@),
        ("album_name_original"@, e.album_name_original@),
        ("album_name"@, e.album_name@),
        ("album_artist_name_original"@, e.album_artist_name_original@),
        ("album_artist_name"@, e.album_artist_name@),
    ];
    assert(forall|i: int| 0 <= i < 9 ==> f[i] == head[i]);
    assert forall|i: int| 9 <= i < f.len() implies
        (#[trigger] f[i]).0 == "timestamp"@ || f[i].0 == "edit_all"@ || f[i].0 == "submit"@ || f[i].0 == "ajax"@ by {}
    assert("csrfmiddlewaretoken"@.len() == 19 && "csrfmiddlewaretoken"@[0] == 'c');
    assert("track_name_original"@.len() == 19 && "track_name_original"@[0] == 't');
    assert("track_name"@.len() == 10 && "track_name"@[0] == 't');
    assert("artist_name_original"@.len() == 20);
    assert("artist_name"@.len() == 11);
    assert("album_name_original"@.len() == 19 && "album_name_original"@[0] == 'a');
    assert("album_name"@.len() == 10 && "album_name"@[0] == 'a');
    assert("album_artist_name_original"@.len() == 26);
    assert("album_artist_name"@.len() == 17);
    assert("timestamp"@.len() == 9);
    assert("edit_all"@.len() == 8);
    assert("submit"@.len() == 6);
    assert("ajax"@.len() == 4);
    let names = seq![
        "csrfmiddlewaretoken"@, "track_name_original"@, "track_name"@, "artist_name_original"@, "artist_name"@,
        "album_name_original"@, "album_name"@, "album_artist_name_original"@, "album_artist_name"@,
    ];
    assert forall|k: int, i: int| 0 <= k < 9 && 0 <= i < f.len() && i != k implies
        (#[trigger] f[i]).0 != #[trigger] names[k] by {
        if i < 9 {
            assert(f[i] == head[i]);
        }
    }
    assert forall|k: int| 0 <= k < 9 implies f[k] == (#[trigger] names[k], head[k].1) by {
        assert(f[k] == head[k]);
    }
    lemma_form_carries_at(f, 0, names[0], csrf);
    lemma_form_carries_at(f, 1, names[1], e.track_name_original@);
    lemma_form_carries_at(f, 2, names[2], e.track_name@);
    lemma_form_carries_at(f, 3, names[3], e.artist_name_original@);
    lemma_form_carries_at(f, 4, names[4], e.artist_name@);
    lemma_form_carries_at(f, 5, names[5], e.album_name_original@);
    lemma_form_carries_at(f, 6, names[6], e.album_name@);
    lemma_form_carries_at(f, 7, names[7], e.album_artist_name_original@);
    lemma_form_carries_at(f, 8, names[8], e.album_artist_name@);
}


/// An edit applied to a discovered scrobble sets each name the request gives to the requested
/// value and keeps the discovered one where it gives none; the artist and `edit_all` are the
/// requested ones, and the values being replaced and the time stay those of the scrobble.
pub proof fn law_applied_edit_takes_requested_values(d: ExactEditView, e: ScrobbleEdit)
    ensures
        e.track_name matches Some(n) ==> applied_edit(d, e).track_name == n@,
        e.track_name is None ==> applied_edit(d, e).track_name == d.track_name,
        e.album_name matches Some(n) ==> applied_edit(d, e).album_name == n@,
        e.album_name is None ==> applied_edit(d, e).album_name == d.album_name,
        e.album_artist_name matches Some(n) ==> applied_edit(d, e).album_artist_name == n@,
        e.album_artist_name is None ==> applied_edit(d, e).album_artist_name == d.album_artist_name,
        applied_edit(d, e).artist_name == e.artist_name@,
        applied_edit(d, e).edit_all == e.edit_all,
        applied_edit(d, e).track_name_original == d.track_name_original,
        applied_edit(d, e).album_name_original == d.album_name_original,
        applied_edit(d, e).artist_name_original == d.artist_name_original,
        applied_edit(d, e).album_artist_name_original == d.album_artist_name_original,
        applied_edit(d, e).timestamp == d.timestamp,
{
}


/// Every track read from an artist's or album's page carries that artist and that album (none
/// for an artist's page), whichever part of the page it was read from.
pub proof fn law_page_tracks_carry_artist_and_album(doc: Seq<char>, artist: Seq<char>, album: Option<Seq<char>>)
    ensures
        forall|i: int| 0 <= i < extracted_tracks(doc, artist, album).len() ==>
            (#[trigger] extracted_tracks(doc, artist, album)[i]).artist == artist
                && extracted_tracks(doc, artist, album)[i].album == album,
        forall|i: int| 0 <= i < table_tracks(doc, artist, album).len() ==>
            (#[trigger] table_tracks(doc, artist, album)[i]).artist == artist
                && table_tracks(doc, artist, album)[i].album == album,
{
    let start: GatherState = (Seq::empty(), Seq::empty(), false);
    let es1 = crate::html::elements_in(doc, "[data-track-name]"@);
    lemma_fold_by_name_all_of(doc, artist, album, es1, start);
    let s1 = fold_by_name(doc, artist, album, es1, start);
    let s2 = if s1.0.len() < 50 {
        let es2 = crate::html::elements_in(doc, "input[name='track']"@);
        lemma_fold_by_input_all_of(doc, artist, album, es2, (s1.0, s1.1, false));
        fold_by_input(doc, artist, album, es2, (s1.0, s1.1, false))
    } else {
        s1
    };
    lemma_row_tracks_all_of(chartlist_rows(doc, name_row_cells()), artist, album);
    if s2.0.len() < 10 {
        lemma_fold_by_row_all_of(table_tracks(doc, artist, album), s2, artist, album);
    }
}

/// Every album read from an artist's album page has that artist, whichever part of the page it
/// was read from.
pub proof fn law_page_albums_have_artist(doc: Seq<char>, artist: Seq<char>)
    ensures
        forall|i: int| 0 <= i < page_albums(doc, artist).len() ==> (#[trigger] page_albums(doc, artist)[i]).artist == artist,
        forall|i: int| 0 <= i < row_albums(chartlist_rows(doc, name_row_cells()), artist).len() ==>
            (#[trigger] row_albums(chartlist_rows(doc, name_row_cells()), artist)[i]).artist == artist,
{
    let start: AlbumGatherState = (Seq::empty(), Seq::empty(), false);
    lemma_fold_by_album_all_by(doc, artist, crate::html::elements_in(doc, "[data-album-name]"@), start);
    lemma_row_albums_all_by(chartlist_rows(doc, name_row_cells()), artist);
}


/// Each track of a track search result page is read from one row of the results: its name from
/// the row's `.chartlist-name a` link, its artist from its `.chartlist-artist a` link, its album
/// from the value of its `input[name='album']` and its album artist from the value of its
/// `input[name='album_artist']`.
pub proof fn law_search_tracks_read_by_selector(rows: Seq<RowView>, i: int)
    requires
        0 <= i < search_tracks(rows).len(),
    ensures
        exists|j: int| 0 <= j < rows.len() && search_track_by_selectors(#[trigger] rows[j], search_tracks(rows)[i]),
{
    lemma_search_tracks_from_rows(rows);
    let j = choose|j: int| 0 <= j < rows.len() && crate::parsing::search_track(#[trigger] rows[j]) == Some(search_tracks(rows)[i]);
    lemma_search_track_by_selectors(rows[j]);
}

} // verus!
