//! What a download reports: the events of the fetcher that runs it, turned
//! into events of the mod manager, and the set of files that failed.

use std::sync::Arc;

use vstd::prelude::*;

use super::{CdnFile, ChecksumError};

verus! {

/// Why a download failed.
#[derive(Debug)]
#[allow(inconsistent_fields)]
pub enum FetchError {
    /// The fetched file of `package` (its url) failed the checksum check.
    Checksum { package: String, source: ChecksumError },
    /// Fetching `package` (its url) failed; `source` says why.
    Fetch { package: String, source: String },
}

/// What happened to a download.
#[derive(Debug)]
pub enum EventKind {
    /// The request to download the file is being initiated.
    Fetching,
    /// The file was downloaded.
    Fetched,
    /// An error occurred.
    Error(FetchError),
    /// The downloaded file passed the checksum check.
    Validated,
    /// The download is being retried.
    Retrying,
}

/// An event of the download of a file.
#[derive(Debug)]
pub struct FetchEvent {
    pub package: Arc<CdnFile>,
    pub kind: EventKind,
}

impl FetchEvent {
    pub fn new(package: Arc<CdnFile>, kind: EventKind) -> (res: Self)
        ensures
            res == (FetchEvent { package, kind }),
    {
        FetchEvent { package, kind }
    }
}

/// An event of the fetcher that runs a download.
#[derive(Clone, Copy, Debug, PartialEq, Eq, Structural)]
pub enum FetcherEvent {
    Fetching,
    Fetched,
    Retrying,
    /// A progress report (a content length or a number of bytes).
    Progress,
}

/// What the downloader does on an event of the fetcher: the event it reports
/// (if any), and whether the fetched file is to be checked against its hashes.
pub open spec fn fetcher_reaction(event: FetcherEvent, package: CdnFile) -> (Option<EventKind>, bool) {
    match event {
        FetcherEvent::Fetching => (Some(EventKind::Fetching), false),
        FetcherEvent::Fetched => (Some(EventKind::Fetched), package.hashes is Some),
        FetcherEvent::Retrying => (Some(EventKind::Retrying), false),
        FetcherEvent::Progress => (None, false),
    }
}

/// Reacts to an event of the fetcher: fetching, fetched and retrying are
/// reported; a fetched file with known hashes is then checked.
pub fn on_fetcher_event(event: FetcherEvent, package: &CdnFile) -> (res: (Option<EventKind>, bool))
    ensures
        res == fetcher_reaction(event, *package),
{
    match event {
        FetcherEvent::Fetching => (Some(EventKind::Fetching), false),
        FetcherEvent::Fetched => (Some(EventKind::Fetched), package.hashes.is_some()),
        FetcherEvent::Retrying => (Some(EventKind::Retrying), false),
        FetcherEvent::Progress => (None, false),
    }
}

/// Reacts to the outcome of checking a fetched file: a file that passes is
/// reported as validated; one that fails is reported with the reason and is
/// to be removed (the second part of the result).
pub fn on_checksum(package: &CdnFile, result: Result<(), ChecksumError>) -> (res: (EventKind, bool))
    ensures
        match result {
            Ok(()) => res.0 is Validated && !res.1,
            Err(e) => {
                &&& res.1
                &&& res.0 matches EventKind::Error(FetchError::Checksum { package: p, source: s })
                &&& p@ == package.url@
                &&& s == e
            },
        },
{
    match result {
        Ok(()) => (EventKind::Validated, false),
        Err(source) => (EventKind::Error(FetchError::Checksum { package: package.url.clone(), source }), true),
    }
}

/// The event for a download that failed for the reason `reason` (the
/// partial file is then removed).
pub fn on_fetch_failure(package: &CdnFile, reason: String) -> (res: EventKind)
    ensures
        res matches EventKind::Error(FetchError::Fetch { package: p, source: s }) && p@ == package.url@ && s == reason,
{
    EventKind::Error(FetchError::Fetch { package: package.url.clone(), source: reason })
}

/// Whether two files are the same file (the same url, name, size and hashes).
pub open spec fn same_cdn_file(a: CdnFile, b: CdnFile) -> bool {
    &&& a.url@ == b.url@
    &&& a.filename@ == b.filename@
    &&& a.size == b.size
    &&& match (a.hashes, b.hashes) {
        (Some(x), Some(y)) => x.sha1@ == y.sha1@ && x.sha512@ == y.sha512@,
        (None, None) => true,
        _ => false,
    }
}

/// Whether `list` holds a file that is the same as `file`.
pub open spec fn holds_file(list: Seq<Arc<CdnFile>>, file: CdnFile) -> bool {
    exists|i: int| 0 <= i < list.len() && same_cdn_file(*#[trigger] list[i], file)
}

/// Records the file of an error event among the failed downloads, once.
pub fn record_failure(failed: &mut Vec<Arc<CdnFile>>, event: &FetchEvent)
    ensures
        if event.kind is Error && !holds_file(old(failed)@, *event.package) {
            final(failed)@ == old(failed)@.push(event.package)
        } else {
            final(failed)@ == old(failed)@
        },
{
    if let EventKind::Error(_) = &event.kind {
        let mut i: usize = 0;
        while i < failed.len()
            invariant
                i <= failed@.len(),
                forall|j: int| 0 <= j < i ==> !same_cdn_file(*#[trigger] failed@[j], *event.package),
            decreases failed.len() - i,
        {
            let known: &CdnFile = &*failed[i];
            let file: &CdnFile = &*event.package;
            if *known == *file {
                return;
            }
            i = i + 1;
        }
        failed.push(event.package.clone());
    }
}

/// Once a file is recorded as failed, recording it again changes nothing.
pub proof fn lemma_failure_recorded_once(failed: Seq<Arc<CdnFile>>, file: Arc<CdnFile>)
    ensures
        holds_file(failed.push(file), *file),
{
    assert(same_cdn_file(*failed.push(file)[failed.len() as int], *file));
}

} // verus!
