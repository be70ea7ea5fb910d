//! Lists of scrobbles to delete, written out for review and read back for execution.

use vstd::prelude::*;
use crate::text::{u64_to_string, decimal_digits};
use crate::types::{LastFmError, Track};

verus! {

broadcast use vstd::string::group_string_axioms;

/// A saved list of scrobbles to delete.
#[derive(Debug, Clone)]
pub struct DeleteManifest {
    pub version: u32,
    pub generated_at_unix: u64,
    pub source: DeleteManifestSource,
    pub scrobbles: Vec<DeleteManifestEntry>,
}

/// How the list was selected.
#[derive(Debug, Clone)]
pub struct DeleteManifestSource {
    pub kind: String,
    pub range: Option<String>,
}

/// One scrobble of the list, numbered from 1.
#[derive(Debug, Clone)]
pub struct DeleteManifestEntry {
    pub index: usize,
    pub offset: Option<u64>,
    pub artist: String,
    pub track: String,
    pub album: Option<String>,
    pub timestamp: u64,
}

/// One scrobble to delete.
#[derive(Debug, Clone)]
pub struct DeleteTarget {
    pub offset: Option<u64>,
    pub artist: String,
    pub track: String,
    pub album: Option<String>,
    pub timestamp: u64,
}

/// How one deletion went.
#[derive(Debug, Clone)]
pub enum DeleteAttemptResult {
    Deleted,
    NotDeleted { message: String },
    Error { message: String },
}

impl DeleteAttemptResult {
    /// Whether the scrobble was deleted.
    pub fn success(&self) -> (res: bool)
        ensures
            res == (*self is Deleted),
    {
        match self {
            DeleteAttemptResult::Deleted => true,
            _ => false,
        }
    }

    /// Why the scrobble was not deleted, if it was not.
    pub fn message(&self) -> (res: Option<&str>)
        ensures
            match *self {
                DeleteAttemptResult::Deleted => res is None,
                DeleteAttemptResult::NotDeleted { message } => res matches Some(m) && m@ == message@,
                DeleteAttemptResult::Error { message } => res matches Some(m) && m@ == message@,
            },
    {
        match self {
            DeleteAttemptResult::Deleted => None,
            DeleteAttemptResult::NotDeleted { message } => Some(message.as_str()),
            DeleteAttemptResult::Error { message } => Some(message.as_str()),
        }
    }
}

/// How many deletions were attempted and how they went.
#[derive(Debug, Clone, Copy, PartialEq, Eq)]
pub struct DeleteExecutionSummary {
    pub total_found: usize,
    pub successful_deletions: usize,
    pub failed_deletions: usize,
}

/// The deletion target for a listed track, at the given offset and timestamp.
pub fn target_from_track(track: &Track, offset: Option<u64>, timestamp: u64) -> (res: DeleteTarget)
    ensures
        res.offset == offset,
        res.artist@ == track.artist@,
        res.track@ == track.name@,
        res.album.deep_view() == track.album.deep_view(),
        res.timestamp == timestamp,
{
    DeleteTarget {
        offset,
        artist: track.artist.clone(),
        track: track.name.clone(),
        album: clone_opt_string(&track.album),
        timestamp,
    }
}

pub(crate) fn clone_opt_string(o: &Option<String>) -> (res: Option<String>)
    ensures
        res.deep_view() == o.deep_view(),
{
    match o {
        Some(s) => Some(s.clone()),
        None => None,
    }
}

/// The entry stands for the target at the given position of the list.
pub open spec fn entry_matches(e: DeleteManifestEntry, t: DeleteTarget, i: int) -> bool {
    &&& e.index == i + 1
    &&& e.offset == t.offset
    &&& e.artist@ == t.artist@
    &&& e.track@ == t.track@
    &&& e.album.deep_view() == t.album.deep_view()
    &&& e.timestamp == t.timestamp
}

/// The target and the entry describe the same scrobble.
pub open spec fn target_matches(t: DeleteTarget, e: DeleteManifestEntry) -> bool {
    &&& t.offset == e.offset
    &&& t.artist@ == e.artist@
    &&& t.track@ == e.track@
    &&& t.album.deep_view() == e.album.deep_view()
    &&& t.timestamp == e.timestamp
}

#[verifier::external_type_specification]
#[verifier::external_body]
pub struct ExSystemTime(std::time::SystemTime);

#[verifier::external_type_specification]
#[verifier::external_body]
pub struct ExSystemTimeError(std::time::SystemTimeError);

/// Calls `SystemTime::now`: what the clock reads, of which nothing is promised.
#[verifier::external_body]
fn system_now() -> (res: std::time::SystemTime) {
    std::time::SystemTime::now()
}

/// Calls `SystemTime::duration_since` with the Unix epoch: the time elapsed since the epoch, or an
/// error when `t` is earlier; nothing is promised of either.
#[verifier::external_body]
fn since_unix_epoch(t: &std::time::SystemTime) -> (res: Result<core::time::Duration, std::time::SystemTimeError>) {
    t.duration_since(std::time::UNIX_EPOCH)
}

/// Calls `Duration::as_secs`: the whole seconds of `d`, which Verus cannot see inside.
#[verifier::external_body]
fn whole_seconds(d: &core::time::Duration) -> (res: u64) {
    d.as_secs()
}

/// Calls the `Display` of `SystemTimeError`: its message, of which nothing is promised.
#[verifier::external_body]
fn time_error_text(e: &std::time::SystemTimeError) -> (res: String) {
    e.to_string()
}

/// The seconds since the Unix epoch by the clock, or the clock's error text when it reads
/// earlier than the epoch.
fn unix_time_now() -> (res: Result<u64, String>) {
    match since_unix_epoch(&system_now()) {
        Ok(d) => Ok(whole_seconds(&d)),
        Err(e) => Err(time_error_text(&e)),
    }
}

impl DeleteManifest {
    /// A manifest of the given targets, numbered from 1, stamped with the current time.
    pub fn new(source: DeleteManifestSource, targets: &Vec<DeleteTarget>) -> (res: Result<Self, LastFmError>)
        requires
            targets@.len() < usize::MAX,
        ensures
            match res {
                Ok(m) => {
                    &&& m.version == 1
                    &&& m.source == source
                    &&& m.scrobbles@.len() == targets@.len()
                    &&& forall|i: int| 0 <= i < targets@.len() ==> entry_matches(#[trigger] m.scrobbles@[i], targets@[i], i)
                },
                Err(e) => e is Parse,
            },
    {
        match unix_time_now() {
            Ok(now) => Ok(Self::generated_at(source, targets, now)),
            Err(msg) => Err(LastFmError::Parse(msg)),
        }
    }

    /// A manifest of the given targets, numbered from 1, stamped with the given time.
    pub fn generated_at(source: DeleteManifestSource, targets: &Vec<DeleteTarget>, generated_at_unix: u64) -> (res: Self)
        requires
            targets@.len() < usize::MAX,
        ensures
            res.version == 1,
            res.generated_at_unix == generated_at_unix,
            res.source == source,
            res.scrobbles@.len() == targets@.len(),
            forall|i: int| 0 <= i < targets@.len() ==> entry_matches(#[trigger] res.scrobbles@[i], targets@[i], i),
    {
        let mut scrobbles: Vec<DeleteManifestEntry> = Vec::new();
        let mut i: usize = 0;
        while i < targets.len()
            invariant
                i <= targets@.len(),
                targets@.len() < usize::MAX,
                scrobbles@.len() == i,
                forall|j: int| 0 <= j < i ==> entry_matches(#[trigger] scrobbles@[j], targets@[j], j),
            decreases targets.len() - i,
        {
            let t = &targets[i];
            scrobbles.push(DeleteManifestEntry {
                index: i + 1,
                offset: t.offset,
                artist: t.artist.clone(),
                track: t.track.clone(),
                album: clone_opt_string(&t.album),
                timestamp: t.timestamp,
            });
            i = i + 1;
        }
        DeleteManifest { version: 1, generated_at_unix, source, scrobbles }
    }

    /// The targets listed, in order.
    pub fn targets(&self) -> (res: Vec<DeleteTarget>)
        ensures
            res@.len() == self.scrobbles@.len(),
            forall|i: int| 0 <= i < res@.len() ==> target_matches(#[trigger] res@[i], self.scrobbles@[i]),
    {
        let mut out: Vec<DeleteTarget> = Vec::new();
        let mut i: usize = 0;
        while i < self.scrobbles.len()
            invariant
                i <= self.scrobbles@.len(),
                out@.len() == i,
                forall|j: int| 0 <= j < i ==> target_matches(#[trigger] out@[j], self.scrobbles@[j]),
            decreases self.scrobbles.len() - i,
        {
            let e = &self.scrobbles[i];
            out.push(DeleteTarget {
                offset: e.offset,
                artist: e.artist.clone(),
                track: e.track.clone(),
                album: clone_opt_string(&e.album),
                timestamp: e.timestamp,
            });
            i = i + 1;
        }
        out
    }
}

/// The message for a manifest of another version than 1.
pub open spec fn unsupported_version_text(version: nat, path: Seq<char>) -> Seq<char> {
    "Unsupported delete manifest version "@ + decimal_digits(version) + " in '"@ + path + "'"@
}

/// Accepts a manifest read from `path` only if it is of version 1.
pub fn check_manifest_version(manifest: DeleteManifest, path: &str) -> (res: Result<DeleteManifest, LastFmError>)
    ensures
        manifest.version == 1 ==> res == Ok::<DeleteManifest, LastFmError>(manifest),
        manifest.version != 1 ==> (res matches Err(LastFmError::Parse(m))
            && m@ == unsupported_version_text(manifest.version as nat, path@)),
{
    if manifest.version != 1 {
        let mut m = String::from_str("Unsupported delete manifest version ");
        m.append(u64_to_string(manifest.version as u64).as_str());
        m.append(" in '");
        m.append(path);
        m.append("'");
        return Err(LastFmError::Parse(m));
    }
    Ok(manifest)
}

/// The message of a deletion that the service did not carry out.
pub open spec fn not_deleted_text() -> Seq<char> {
    "Deletion failed; the scrobble may already be missing"@
}

/// The result of one deletion request: deleted, refused by the service, or failed with an error
/// whose text is given.
pub fn delete_attempt_result(outcome: Result<bool, String>) -> (res: DeleteAttemptResult)
    ensures
        match outcome {
            Ok(true) => res is Deleted,
            Ok(false) => res matches DeleteAttemptResult::NotDeleted { message } && message@ == not_deleted_text(),
            Err(e) => res matches DeleteAttemptResult::Error { message } && message@ == e@,
        },
{
    match outcome {
        Ok(true) => DeleteAttemptResult::Deleted,
        Ok(false) => DeleteAttemptResult::NotDeleted {
            message: String::from_str("Deletion failed; the scrobble may already be missing"),
        },
        Err(e) => DeleteAttemptResult::Error { message: e },
    }
}

/// How many of the results are deletions.
pub open spec fn count_deleted(rs: Seq<DeleteAttemptResult>) -> nat
    decreases rs.len(),
{
    if rs.len() == 0 {
        0
    } else {
        count_deleted(rs.drop_last()) + if rs.last() is Deleted { 1nat } else { 0nat }
    }
}

pub proof fn lemma_count_deleted_bound(rs: Seq<DeleteAttemptResult>)
    ensures
        count_deleted(rs) <= rs.len(),
    decreases rs.len(),
{
    if rs.len() > 0 {
        lemma_count_deleted_bound(rs.drop_last());
    }
}

/// The summary of a run of deletions with the given results.
pub fn delete_summary(results: &Vec<DeleteAttemptResult>) -> (res: DeleteExecutionSummary)
    ensures
        res.total_found == results@.len(),
        res.successful_deletions == count_deleted(results@),
        res.failed_deletions == results@.len() - count_deleted(results@),
{
    let mut ok: usize = 0;
    let mut i: usize = 0;
    while i < results.len()
        invariant
            i <= results@.len(),
            ok == count_deleted(results@.take(i as int)),
            ok <= i,
        decreases results.len() - i,
    {
        assert(results@.take(i + 1).drop_last() =~= results@.take(i as int));
        if results[i].success() {
            ok = ok + 1;
        }
        i = i + 1;
    }
    assert(results@.take(i as int) =~= results@);
    DeleteExecutionSummary { total_found: results.len(), successful_deletions: ok, failed_deletions: results.len() - ok }
}

} // verus!
