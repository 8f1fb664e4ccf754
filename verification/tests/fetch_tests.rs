use moss_weights::fetch::{fetch_start, fetch_step, FetchError, FetchEvent, FetchState, Origin, Stale};
use moss_weights::manifest::ManifestFile;

fn expected() -> ManifestFile {
    ManifestFile { size: 100, sha256: "abcd".to_string() }
}

fn run(events: Vec<FetchEvent>) -> Option<FetchState> {
    let e = expected();
    let mut s = fetch_start();
    for ev in events.iter() {
        s = fetch_step(&e, s, ev)?;
    }
    Some(s)
}

#[test]
fn valid_cache_is_used_without_download() {
    let r = run(vec![FetchEvent::CacheSize(100), FetchEvent::CacheDigest("abcd".to_string())]);
    assert_eq!(r, Some(FetchState::Verified(Origin::Cache)));
}

#[test]
fn cache_of_wrong_size_is_discarded() {
    let r = run(vec![FetchEvent::CacheSize(99)]);
    assert_eq!(
        r,
        Some(FetchState::Downloading { stale: Some(Stale::Size { expected: 100, actual: 99 }) })
    );
}

#[test]
fn cache_of_wrong_digest_is_discarded() {
    let r = run(vec![FetchEvent::CacheSize(100), FetchEvent::CacheDigest("abce".to_string())]);
    assert_eq!(r, Some(FetchState::Downloading { stale: Some(Stale::Digest) }));
}

#[test]
fn digest_comparison_is_exact() {
    let r = run(vec![FetchEvent::CacheSize(100), FetchEvent::CacheDigest("ABCD".to_string())]);
    assert_eq!(r, Some(FetchState::Downloading { stale: Some(Stale::Digest) }));
}

#[test]
fn missing_cache_leads_to_download() {
    assert_eq!(run(vec![FetchEvent::NoCache]), Some(FetchState::Downloading { stale: None }));
}

#[test]
fn matching_download_is_promoted() {
    let r = run(vec![
        FetchEvent::NoCache,
        FetchEvent::DownloadSize(100),
        FetchEvent::DownloadDigest("abcd".to_string()),
    ]);
    assert_eq!(r, Some(FetchState::Verified(Origin::Download)));
}

#[test]
fn download_after_stale_cache_is_checked_too() {
    let r = run(vec![
        FetchEvent::CacheSize(100),
        FetchEvent::CacheDigest("0000".to_string()),
        FetchEvent::DownloadSize(100),
        FetchEvent::DownloadDigest("abcd".to_string()),
    ]);
    assert_eq!(r, Some(FetchState::Verified(Origin::Download)));
}

#[test]
fn download_of_wrong_size_is_rejected() {
    let r = run(vec![FetchEvent::NoCache, FetchEvent::DownloadSize(7)]);
    assert_eq!(r, Some(FetchState::Rejected(FetchError::Size { expected: 100, actual: 7 })));
}

#[test]
fn download_of_wrong_digest_is_rejected() {
    let r = run(vec![
        FetchEvent::NoCache,
        FetchEvent::DownloadSize(100),
        FetchEvent::DownloadDigest("ffff".to_string()),
    ]);
    assert_eq!(r, Some(FetchState::Rejected(FetchError::Digest)));
}

#[test]
fn events_out_of_turn_are_refused() {
    assert_eq!(run(vec![FetchEvent::DownloadSize(100)]), None);
    assert_eq!(run(vec![FetchEvent::CacheSize(100), FetchEvent::NoCache]), None);
    assert_eq!(
        run(vec![
            FetchEvent::CacheSize(100),
            FetchEvent::CacheDigest("abcd".to_string()),
            FetchEvent::NoCache
        ]),
        None
    );
}
