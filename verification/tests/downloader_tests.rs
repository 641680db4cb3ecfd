use std::sync::Arc;

use mcubed::cdn_file::downloader::{
    on_checksum, on_fetch_failure, on_fetcher_event, record_failure, EventKind, FetchError, FetchEvent, FetcherEvent,
};
use mcubed::cdn_file::{CdnFile, ChecksumError};
use mcubed::mod_file::Hashes;

fn cdn(url: &str, hashed: bool) -> CdnFile {
    CdnFile {
        url: url.to_string(),
        filename: "mod.jar".to_string(),
        size: 3,
        hashes: if hashed { Some(Hashes { sha1: "a".to_string(), sha512: "b".to_string() }) } else { None },
    }
}

#[test]
fn fetcher_events_are_reported() {
    let hashed = cdn("https://cdn/a.jar", true);
    let plain = cdn("https://cdn/b.jar", false);
    assert!(matches!(on_fetcher_event(FetcherEvent::Fetching, &hashed), (Some(EventKind::Fetching), false)));
    assert!(matches!(on_fetcher_event(FetcherEvent::Fetched, &hashed), (Some(EventKind::Fetched), true)));
    assert!(matches!(on_fetcher_event(FetcherEvent::Fetched, &plain), (Some(EventKind::Fetched), false)));
    assert!(matches!(on_fetcher_event(FetcherEvent::Retrying, &plain), (Some(EventKind::Retrying), false)));
    assert!(matches!(on_fetcher_event(FetcherEvent::Progress, &hashed), (None, false)));
}

#[test]
fn checksum_outcomes() {
    let file = cdn("https://cdn/a.jar", true);
    assert!(matches!(on_checksum(&file, Ok(())), (EventKind::Validated, false)));
    match on_checksum(&file, Err(ChecksumError::Mismatch)) {
        (EventKind::Error(FetchError::Checksum { package, source: ChecksumError::Mismatch }), true) => {
            assert_eq!(package, "https://cdn/a.jar")
        }
        other => panic!("unexpected outcome {:?}", other),
    }
}

#[test]
fn fetch_failures_name_the_url() {
    let file = cdn("https://cdn/a.jar", false);
    match on_fetch_failure(&file, "timed out".to_string()) {
        EventKind::Error(FetchError::Fetch { package, source }) => {
            assert_eq!(package, "https://cdn/a.jar");
            assert_eq!(source, "timed out");
        }
        other => panic!("unexpected event {:?}", other),
    }
}

#[test]
fn failures_are_recorded_once() {
    let a = Arc::new(cdn("https://cdn/a.jar", true));
    let b = Arc::new(cdn("https://cdn/b.jar", true));
    let mut failed = Vec::new();
    record_failure(&mut failed, &FetchEvent::new(a.clone(), EventKind::Fetched));
    assert!(failed.is_empty());
    let err = || EventKind::Error(FetchError::Fetch { package: "x".to_string(), source: "y".to_string() });
    record_failure(&mut failed, &FetchEvent::new(a.clone(), err()));
    record_failure(&mut failed, &FetchEvent::new(Arc::new(cdn("https://cdn/a.jar", true)), err()));
    record_failure(&mut failed, &FetchEvent::new(b.clone(), err()));
    assert_eq!(failed.len(), 2);
    assert_eq!(*failed[0], *a);
    assert_eq!(*failed[1], *b);
}
