//! Checking a file fetched from the GitHub release against the manifest.
//!
//! A cached copy is used only when both its size and its SHA-256 match the
//! manifest; otherwise it is discarded and the file is downloaded to a
//! temporary name.  The download is kept only when both its size and its
//! SHA-256 match.  The caller performs the file work that each state asks
//! for and reports what it observed as an event.
use vstd::prelude::*;
use crate::manifest::ManifestFile;
use crate::text::str_eq;

verus! {

/// Where a verified file came from.
#[derive(Clone, Copy, PartialEq, Eq, Structural, Debug)]
pub enum Origin {
    /// The copy already in the cache directory.
    Cache,
    /// The fresh download, to be renamed to its final name.
    Download,
}

/// Why a cached copy is not used.
#[derive(Clone, Copy, PartialEq, Eq, Structural, Debug)]
pub enum Stale {
    Size { expected: u64, actual: u64 },
    Digest,
}

/// Why a download is refused.
#[derive(Clone, Copy, PartialEq, Eq, Structural, Debug)]
pub enum FetchError {
    Size { expected: u64, actual: u64 },
    Digest,
}

/// Progress of one fetch.  Each state other than the last two says what
/// the caller must do next.
#[derive(Clone, Copy, PartialEq, Eq, Structural, Debug)]
pub enum FetchState {
    /// Find out whether a cached copy exists, and its size.
    ProbingCache,
    /// The cached copy has the right size: compute its SHA-256.
    HashingCache,
    /// Remove the stale cached copy, if any, and download to the temporary
    /// name; then report the size of the download.
    Downloading { stale: Option<Stale> },
    /// The download has the right size: compute its SHA-256.
    HashingDownload,
    /// The file is verified.
    Verified(Origin),
    /// The download does not match: remove it and fail.
    Rejected(FetchError),
}

/// What the caller observed.
pub enum FetchEvent {
    /// No cached copy exists.
    NoCache,
    /// The cached copy has this many bytes.
    CacheSize(u64),
    /// The cached copy has this SHA-256, in hex.
    CacheDigest(String),
    /// The download has this many bytes.
    DownloadSize(u64),
    /// The download has this SHA-256, in hex.
    DownloadDigest(String),
}

/// The state that follows `state` on `event`, for a file whose manifest
/// record is `expected` (size, hex digest); `None` when the event does not
/// answer what the state asked.
pub open spec fn spec_fetch_step(expected: (u64, Seq<char>), state: FetchState, event: FetchEvent) -> Option<FetchState> {
    match (state, event) {
        (FetchState::ProbingCache, FetchEvent::NoCache) => Some(FetchState::Downloading { stale: None }),
        (FetchState::ProbingCache, FetchEvent::CacheSize(n)) => if n == expected.0 {
            Some(FetchState::HashingCache)
        } else {
            Some(FetchState::Downloading { stale: Some(Stale::Size { expected: expected.0, actual: n }) })
        },
        (FetchState::HashingCache, FetchEvent::CacheDigest(d)) => if d@ == expected.1 {
            Some(FetchState::Verified(Origin::Cache))
        } else {
            Some(FetchState::Downloading { stale: Some(Stale::Digest) })
        },
        (FetchState::Downloading { .. }, FetchEvent::DownloadSize(n)) => if n == expected.0 {
            Some(FetchState::HashingDownload)
        } else {
            Some(FetchState::Rejected(FetchError::Size { expected: expected.0, actual: n }))
        },
        (FetchState::HashingDownload, FetchEvent::DownloadDigest(d)) => if d@ == expected.1 {
            Some(FetchState::Verified(Origin::Download))
        } else {
            Some(FetchState::Rejected(FetchError::Digest))
        },
        _ => None,
    }
}

/// The state after a whole run of events from `ProbingCache`.
pub open spec fn fetch_run(expected: (u64, Seq<char>), events: Seq<FetchEvent>) -> Option<FetchState>
    decreases events.len(),
{
    if events.len() == 0 {
        Some(FetchState::ProbingCache)
    } else {
        match fetch_run(expected, events.drop_last()) {
            Some(s) => spec_fetch_step(expected, s, events.last()),
            None => None,
        }
    }
}

/// The state in which every fetch starts.
pub fn fetch_start() -> (s: FetchState)
    ensures
        s == FetchState::ProbingCache,
{
    FetchState::ProbingCache
}

/// Moves a fetch on by one observation.
pub fn fetch_step(expected: &ManifestFile, state: FetchState, event: &FetchEvent) -> (r: Option<FetchState>)
    ensures
        r == spec_fetch_step(expected.spec_record(), state, *event),
{
    match (state, event) {
        (FetchState::ProbingCache, FetchEvent::NoCache) => Some(FetchState::Downloading { stale: None }),
        (FetchState::ProbingCache, FetchEvent::CacheSize(n)) => {
            if *n == expected.size {
                Some(FetchState::HashingCache)
            } else {
                Some(FetchState::Downloading { stale: Some(Stale::Size { expected: expected.size, actual: *n }) })
            }
        },
        (FetchState::HashingCache, FetchEvent::CacheDigest(d)) => {
            if str_eq(d.as_str(), expected.sha256.as_str()) {
                Some(FetchState::Verified(Origin::Cache))
            } else {
                Some(FetchState::Downloading { stale: Some(Stale::Digest) })
            }
        },
        (FetchState::Downloading { .. }, FetchEvent::DownloadSize(n)) => {
            if *n == expected.size {
                Some(FetchState::HashingDownload)
            } else {
                Some(FetchState::Rejected(FetchError::Size { expected: expected.size, actual: *n }))
            }
        },
        (FetchState::HashingDownload, FetchEvent::DownloadDigest(d)) => {
            if str_eq(d.as_str(), expected.sha256.as_str()) {
                Some(FetchState::Verified(Origin::Download))
            } else {
                Some(FetchState::Rejected(FetchError::Digest))
            }
        },
        _ => None,
    }
}

/// A fetch ends verified only right after two matching observations of the
/// same copy: its size equal to the manifest's, then its SHA-256 equal to
/// the manifest's.  A cached copy or a download that differs in either is
/// never used.
pub proof fn lemma_verified_only_if_matching(expected: (u64, Seq<char>), events: Seq<FetchEvent>, origin: Origin)
    requires
        fetch_run(expected, events) == Some(FetchState::Verified(origin)),
    ensures
        events.len() >= 2,
        origin == Origin::Cache ==> events[events.len() - 2] == FetchEvent::CacheSize(expected.0)
            && (events.last() matches FetchEvent::CacheDigest(d) && d@ == expected.1),
        origin == Origin::Download ==> events[events.len() - 2] == FetchEvent::DownloadSize(expected.0)
            && (events.last() matches FetchEvent::DownloadDigest(d) && d@ == expected.1),
{
    let pre = events.drop_last();
    assert(events.len() > 0);
    let s1 = fetch_run(expected, pre);
    assert(s1 is Some);
    assert(pre.len() > 0);
    let pre2 = pre.drop_last();
    assert(fetch_run(expected, pre) == match fetch_run(expected, pre2) {
        Some(s) => spec_fetch_step(expected, s, pre.last()),
        None => None,
    });
    assert(pre.last() == events[events.len() - 2]);
}

/// Once verified or rejected, a fetch accepts no further observation.
pub proof fn lemma_terminal_states_are_final(expected: (u64, Seq<char>), state: FetchState, event: FetchEvent)
    requires
        state is Verified || state is Rejected,
    ensures
        spec_fetch_step(expected, state, event) is None,
{
}

/// A cached copy whose size differs from the manifest's is never used and
/// never ends the fetch: it is discarded and the file is downloaded afresh,
/// with the two sizes recorded.
pub proof fn lemma_cache_size_mismatch_redownloads(expected: (u64, Seq<char>), n: u64)
    requires
        n != expected.0,
    ensures
        spec_fetch_step(expected, FetchState::ProbingCache, FetchEvent::CacheSize(n))
            == Some(FetchState::Downloading { stale: Some(Stale::Size { expected: expected.0, actual: n }) }),
{
}

/// A cached copy whose digest differs from the manifest's is discarded and
/// the file is downloaded afresh.
pub proof fn lemma_cache_digest_mismatch_redownloads(expected: (u64, Seq<char>), d: String)
    requires
        d@ != expected.1,
    ensures
        spec_fetch_step(expected, FetchState::HashingCache, FetchEvent::CacheDigest(d))
            == Some(FetchState::Downloading { stale: Some(Stale::Digest) }),
{
}

/// Only what is observed of a download can make a fetch fail: no
/// observation of the cache (its absence, its size or its digest) ever
/// leads to a rejection, from any state.
pub proof fn lemma_cache_never_rejects(expected: (u64, Seq<char>), state: FetchState, event: FetchEvent)
    requires
        event is NoCache || event is CacheSize || event is CacheDigest,
    ensures
        !(spec_fetch_step(expected, state, event) matches Some(FetchState::Rejected(_))),
{
}

/// A download whose size or digest differs from the manifest's is
/// rejected, with the sizes recorded when they differ.
pub proof fn lemma_download_mismatch_rejects(expected: (u64, Seq<char>), stale: Option<Stale>, n: u64, d: String)
    ensures
        n != expected.0 ==> spec_fetch_step(expected, FetchState::Downloading { stale }, FetchEvent::DownloadSize(n))
            == Some(FetchState::Rejected(FetchError::Size { expected: expected.0, actual: n })),
        d@ != expected.1 ==> spec_fetch_step(expected, FetchState::HashingDownload, FetchEvent::DownloadDigest(d))
            == Some(FetchState::Rejected(FetchError::Digest)),
{
}

} // verus!
