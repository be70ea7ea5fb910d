//! Discovering the scrobbles that a requested edit reaches.

use vstd::prelude::*;
use crate::types::{ExactScrobbleEdit, ExactEditView, ScrobbleEdit};
use crate::client::{apply_edit, applied_edit};

verus! {

/// The edits whose original album artist is `target`, in order.
pub open spec fn with_album_artist(es: Seq<ExactEditView>, target: Seq<char>) -> Seq<ExactEditView>
    decreases es.len(),
{
    if es.len() == 0 {
        Seq::empty()
    } else {
        let prev = with_album_artist(es.drop_last(), target);
        if es.last().album_artist_name_original == target { prev.push(es.last()) } else { prev }
    }
}

/// The discovered edits that the requested edit allows: those of its original album artist
/// when it names one, all of them otherwise.
pub open spec fn allowed_edits(es: Seq<ExactEditView>, e: ScrobbleEdit) -> Seq<ExactEditView> {
    match e.album_artist_name_original {
        Some(a) => with_album_artist(es, a@),
        None => es,
    }
}

/// Keeps the discovered edits whose original album artist is the one the edit names, if it
/// names one.
pub fn filter_by_original_album_artist(discovered_edits: Vec<ExactScrobbleEdit>, edit: &ScrobbleEdit) -> (res: Vec<ExactScrobbleEdit>)
    ensures
        res.deep_view() == allowed_edits(discovered_edits.deep_view(), *edit),
{
    match &edit.album_artist_name_original {
        Some(target) => {
            let ghost dv = discovered_edits.deep_view();
            let mut out: Vec<ExactScrobbleEdit> = Vec::new();
            let mut i: usize = 0;
            while i < discovered_edits.len()
                invariant
                    i <= discovered_edits@.len(),
                    dv == discovered_edits.deep_view(),
                    out.deep_view() == with_album_artist(dv.take(i as int), target@),
                decreases discovered_edits.len() - i,
            {
                assert(dv.take(i + 1).drop_last() =~= dv.take(i as int));
                assert(dv.take(i + 1).last() == discovered_edits@[i as int]@);
                if discovered_edits[i].album_artist_name_original.eq(target) {
                    let ghost before = out.deep_view();
                    let e = discovered_edits[i].copy();
                    out.push(e);
                    assert(out.deep_view() =~= before.push(e@));
                }
                i = i + 1;
            }
            assert(dv.take(i as int) =~= dv);
            out
        },
        None => discovered_edits,
    }
}

/// The discovered scrobbles of a track, each with the requested changes applied, then kept when
/// the edit allows them.
pub fn prepare_discovered(track_scrobbles: &Vec<ExactScrobbleEdit>, edit: &ScrobbleEdit) -> (res: Vec<ExactScrobbleEdit>)
    ensures
        res.deep_view() == allowed_edits(track_scrobbles.deep_view().map_values(|d: ExactEditView| applied_edit(d, *edit)), *edit),
{
    let ghost tv = track_scrobbles.deep_view();
    let mut modified: Vec<ExactScrobbleEdit> = Vec::new();
    let mut i: usize = 0;
    while i < track_scrobbles.len()
        invariant
            i <= track_scrobbles@.len(),
            tv == track_scrobbles.deep_view(),
            modified.deep_view() == tv.take(i as int).map_values(|d: ExactEditView| applied_edit(d, *edit)),
        decreases track_scrobbles.len() - i,
    {
        let ghost before = modified.deep_view();
        let m = apply_edit(&track_scrobbles[i], edit);
        modified.push(m);
        assert(modified.deep_view() =~= before.push(m@));
        assert(modified.deep_view() =~= tv.take(i + 1).map_values(|d: ExactEditView| applied_edit(d, *edit)));
        i = i + 1;
    }
    assert(tv.take(i as int) =~= tv);
    filter_by_original_album_artist(modified, edit)
}

} // verus!
