//! The id-resolution protocol: a game-page download whose id is absent is
//! resolved against a secondary download page by exact title equality.
//!
//! The network calls themselves live outside the library; this module holds
//! the decisions of the workflow — whether the secondary fetch is needed at
//! all, and which entry of the fetched page resolves the download. Title
//! equality is a best-effort join key: when two entries share a title the
//! first one in page order wins.

use vstd::prelude::*;
use crate::download_page::DownloadPage;
use crate::download_page::DownloadView;
use crate::game_page;
use crate::text::str_eq;

verus! {

/// An error of the id-resolution protocol.
#[derive(Debug, PartialEq, Eq)]
pub enum ResolveError {
    /// No entry of the download page has a title exactly equal to the
    /// download's title.
    NoMatchingDownload,
}

/// The id of the first entry whose title is exactly `title`, if any.
pub open spec fn spec_find_id_by_title(entries: Seq<DownloadView>, title: Seq<char>) -> Option<
    u64,
>
    decreases entries.len(),
{
    if entries.len() == 0 {
        None
    } else if entries[0].title == title {
        Some(entries[0].id)
    } else {
        spec_find_id_by_title(entries.drop_first(), title)
    }
}

/// Scan a download page, in page order, for the first entry whose title is
/// exactly equal to `title` and return its id. Absence of a match is a hard
/// error, not a silent skip.
pub fn resolve_id_by_title(page: &DownloadPage, title: &str) -> (r: Result<u64, ResolveError>)
    ensures
        (match spec_find_id_by_title(page@.downloads, title@) {
            Some(id) => r == Ok::<u64, ResolveError>(id),
            None => r == Err::<u64, ResolveError>(ResolveError::NoMatchingDownload),
        }),
{
    let ghost entries: Seq<DownloadView> = page@.downloads;
    proof {
        assert(entries.skip(0) =~= entries);
    }
    let mut i: usize = 0;
    while i < page.downloads.len()
        invariant
            entries == page@.downloads,
            entries.len() == page.downloads@.len(),
            forall|j: int| 0 <= j < entries.len() ==> entries[j] == page.downloads@[j]@,
            0 <= i <= page.downloads.len(),
            spec_find_id_by_title(entries, title@) == spec_find_id_by_title(
                entries.skip(i as int),
                title@,
            ),
        decreases page.downloads.len() - i,
    {
        proof {
            assert(entries.skip(i as int).len() > 0);
            assert(entries.skip(i as int)[0] == page.downloads@[i as int]@);
            assert(entries.skip(i as int).drop_first() =~= entries.skip(i + 1));
        }
        let entry = &page.downloads[i];
        if str_eq(entry.title.as_str(), title) {
            return Ok(entry.id);
        }
        i += 1;
    }
    proof {
        assert(entries.skip(page.downloads@.len() as int) =~= Seq::<DownloadView>::empty());
    }
    Err(ResolveError::NoMatchingDownload)
}

/// The next step for resolving one game-page download to a concrete id.
#[derive(Debug, Clone, Copy, PartialEq, Eq, Structural)]
pub enum ResolutionStep {
    /// The download already carries its id: the workflow is resolved with no
    /// further fetch.
    Resolved(u64),
    /// The id is absent: the caller must fetch the download-page URL, fetch
    /// that page, and finish the resolution against it by title.
    NeedDownloadPage,
}

/// Decide the first step of the resolution workflow for a download.
pub fn start_resolution(download: &game_page::Download) -> (r: ResolutionStep)
    ensures
        (match download.id {
            Some(id) => r == ResolutionStep::Resolved(id),
            None => r == ResolutionStep::NeedDownloadPage,
        }),
{
    match download.id {
        Some(id) => ResolutionStep::Resolved(id),
        None => ResolutionStep::NeedDownloadPage,
    }
}

/// Finish the resolution of a download whose id is absent against the
/// fetched download page: the id of the first entry with exactly equal
/// title, or `NoMatchingDownload`.
pub fn finish_resolution(download: &game_page::Download, page: &DownloadPage) -> (r: Result<
    u64,
    ResolveError,
>)
    requires
        download@.id is None,
    ensures
        (match spec_find_id_by_title(page@.downloads, download@.title) {
            Some(id) => r == Ok::<u64, ResolveError>(id),
            None => r == Err::<u64, ResolveError>(ResolveError::NoMatchingDownload),
        }),
{
    resolve_id_by_title(page, download.title.as_str())
}

/// Law (round trip): resolution by title succeeds exactly when some entry of
/// the page carries the download's title; when it succeeds it yields the id
/// of the first such entry in page order.
pub proof fn lemma_resolution_round_trip(entries: Seq<DownloadView>, title: Seq<char>)
    ensures
        (exists|i: int| 0 <= i < entries.len() && entries[i].title == title)
            <==> spec_find_id_by_title(entries, title) is Some,
        spec_find_id_by_title(entries, title) matches Some(id) ==> exists|i: int|
            0 <= i < entries.len() && entries[i].title == title && entries[i].id == id && (
            forall|j: int| 0 <= j < i ==> entries[j].title != title),
    decreases entries.len(),
{
    if entries.len() == 0 {
    } else if entries[0].title == title {
        assert(0 <= 0 < entries.len() && entries[0].title == title);
        assert(entries[0].id == spec_find_id_by_title(entries, title)->0);
        assert(forall|j: int| 0 <= j < 0 ==> entries[j].title != title);
    } else {
        let rest = entries.drop_first();
        assert(forall|i: int| 0 <= i < rest.len() ==> rest[i] == entries[i + 1]);
        lemma_resolution_round_trip(rest, title);
        if exists|i: int| 0 <= i < entries.len() && entries[i].title == title {
            let i = choose|i: int| 0 <= i < entries.len() && entries[i].title == title;
            assert(i != 0);
            assert(rest[i - 1].title == title);
            assert(spec_find_id_by_title(rest, title) is Some);
        }
        if spec_find_id_by_title(entries, title) is Some {
            let id = spec_find_id_by_title(entries, title)->0;
            assert(spec_find_id_by_title(rest, title) == Some(id));
            let j = choose|j: int|
                0 <= j < rest.len() && rest[j].title == title && rest[j].id == id && (forall|
                    j2: int,
                | 0 <= j2 < j ==> rest[j2].title != title);
            assert(entries[j + 1].title == title && entries[j + 1].id == id);
            assert(forall|j2: int| 0 <= j2 < j + 1 ==> entries[j2].title != title) by {
                assert(forall|j2: int| 1 <= j2 < j + 1 ==> entries[j2] == rest[j2 - 1]);
            }
            assert(0 <= j + 1 < entries.len() && entries[j + 1].title == title && entries[j
                + 1].id == id && (forall|j2: int| 0 <= j2 < j + 1 ==> entries[j2].title != title));
        }
    }
}

} // verus!
