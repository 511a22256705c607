//! The download page: the secondary page fetched during id resolution. Its
//! download entries have the same shape as a game page's, except that the
//! id is mandatory here — the download page always carries a concrete id.

use vstd::prelude::*;
use scraper::Html;
use crate::dom::DownloadPageDom;
use crate::dom::DownloadPageDomView;
use crate::dom::DownloadRowDom;
use crate::dom::DownloadRowDomView;
use crate::platform::Platform;
use crate::platform::PlatformsError;
use crate::platform::PlatformsErrorView;
use crate::platform::platform_list;
use crate::platform::spec_platform_list;
use crate::scrape::Selectors;
use crate::scrape::download_page_dom;
use crate::size::spec_parse_size;
use crate::size::parse_size_text;
use crate::text::parse_u64;
use crate::text::spec_parse_u64;

verus! {

/// An error that may occur while parsing an element.
#[derive(Debug, PartialEq, Eq)]
pub enum FromElementError {
    /// Missing Title
    MissingTitle,
    /// Missing file size
    MissingFileSize,
    /// Missing id
    MissingId,
    /// Invalid id
    InvalidId,
    /// Missing platforms
    MissingPlatforms,
    /// Missing a platform string
    MissingPlatformString,
    /// Invalid platform
    InvalidPlatformString(String),
}

/// The view of an element-level parse failure.
pub ghost enum FromElementErrorView {
    MissingTitle,
    MissingFileSize,
    MissingId,
    InvalidId,
    MissingPlatforms,
    MissingPlatformString,
    InvalidPlatformString(Seq<char>),
}

impl View for FromElementError {
    type V = FromElementErrorView;

    open spec fn view(&self) -> FromElementErrorView {
        match self {
            FromElementError::MissingTitle => FromElementErrorView::MissingTitle,
            FromElementError::MissingFileSize => FromElementErrorView::MissingFileSize,
            FromElementError::MissingId => FromElementErrorView::MissingId,
            FromElementError::InvalidId => FromElementErrorView::InvalidId,
            FromElementError::MissingPlatforms => FromElementErrorView::MissingPlatforms,
            FromElementError::MissingPlatformString => FromElementErrorView::MissingPlatformString,
            FromElementError::InvalidPlatformString(t) => FromElementErrorView::InvalidPlatformString(
                t@,
            ),
        }
    }
}

/// An error that occurs while parsing from html
#[derive(Debug, PartialEq, Eq)]
pub enum FromHtmlError {
    /// Invalid download
    InvalidDownload(FromElementError),
}

/// The view of a page-level parse failure.
pub ghost enum FromHtmlErrorView {
    InvalidDownload(FromElementErrorView),
}

impl View for FromHtmlError {
    type V = FromHtmlErrorView;

    open spec fn view(&self) -> FromHtmlErrorView {
        match self {
            FromHtmlError::InvalidDownload(e) => FromHtmlErrorView::InvalidDownload(e@),
        }
    }
}

/// A download
#[derive(Debug)]
pub struct Download {
    /// The title of the download
    pub title: String,
    /// Download size
    ///
    /// This is a string representation.
    /// The format is something like `N {specifier}`
    /// where `specifier` is 'MB' or 'kB'.
    pub size: String,
    /// Download id
    pub id: u64,
    /// The platforms this download is for
    pub platforms: Vec<Platform>,
}

/// The view of a download entry.
pub ghost struct DownloadView {
    pub title: Seq<char>,
    pub size: Seq<char>,
    pub id: u64,
    pub platforms: Seq<Platform>,
}

impl View for Download {
    type V = DownloadView;

    open spec fn view(&self) -> DownloadView {
        DownloadView {
            title: self.title@,
            size: self.size@,
            id: self.id,
            platforms: self.platforms.deep_view(),
        }
    }
}

impl DeepView for Download {
    type V = DownloadView;

    open spec fn deep_view(&self) -> DownloadView {
        self.view()
    }
}

/// A page of downloads
#[derive(Debug)]
pub struct DownloadPage {
    /// Downloads
    pub downloads: Vec<Download>,
}

/// The view of a download page.
pub ghost struct DownloadPageView {
    pub downloads: Seq<DownloadView>,
}

impl View for DownloadPage {
    type V = DownloadPageView;

    open spec fn view(&self) -> DownloadPageView {
        DownloadPageView { downloads: self.downloads.deep_view() }
    }
}

/// The download entry a row denotes, or the first field-level failure in the
/// order title, file size, id, platforms. The id is mandatory here.
pub open spec fn spec_download_from_row(row: DownloadRowDomView) -> Result<
    DownloadView,
    FromElementErrorView,
> {
    match row.title_text {
        None => Err(FromElementErrorView::MissingTitle),
        Some(title) => match row.size_text {
            None => Err(FromElementErrorView::MissingFileSize),
            Some(size) => match row.upload_id_attr {
                None => Err(FromElementErrorView::MissingId),
                Some(attr) => match spec_parse_u64(attr) {
                    None => Err(FromElementErrorView::InvalidId),
                    Some(id) => match row.icon_classes {
                        None => Err(FromElementErrorView::MissingPlatforms),
                        Some(icons) => match spec_platform_list(icons) {
                            Err(PlatformsErrorView::MissingPlatformString) => Err(
                                FromElementErrorView::MissingPlatformString,
                            ),
                            Err(PlatformsErrorView::InvalidPlatformString(t)) => Err(
                                FromElementErrorView::InvalidPlatformString(t),
                            ),
                            Ok(platforms) => Ok(DownloadView { title, size, id, platforms }),
                        },
                    },
                },
            },
        },
    }
}

/// The entries of a sequence of rows, in order; the first failing row aborts
/// the whole sequence.
pub open spec fn spec_downloads_from_rows(rows: Seq<DownloadRowDomView>) -> Result<
    Seq<DownloadView>,
    FromElementErrorView,
>
    decreases rows.len(),
{
    if rows.len() == 0 {
        Ok(Seq::empty())
    } else {
        match spec_download_from_row(rows[0]) {
            Err(e) => Err(e),
            Ok(d) => match spec_downloads_from_rows(rows.drop_first()) {
                Ok(rest) => Ok(seq![d] + rest),
                Err(e) => Err(e),
            },
        }
    }
}

/// The download page a document denotes: every row's entry in document
/// order, or the failure of the first malformed row — never a partial list.
pub open spec fn spec_download_page_from_dom(dom: DownloadPageDomView) -> Result<
    DownloadPageView,
    FromHtmlErrorView,
> {
    match spec_downloads_from_rows(dom.rows) {
        Err(e) => Err(FromHtmlErrorView::InvalidDownload(e)),
        Ok(downloads) => Ok(DownloadPageView { downloads }),
    }
}

/// The view of a row-parse result.
pub open spec fn download_result_view(r: Result<Download, FromElementError>) -> Result<
    DownloadView,
    FromElementErrorView,
> {
    match r {
        Ok(d) => Ok(d@),
        Err(e) => Err(e@),
    }
}

/// The view of a page-parse result.
pub open spec fn page_result_view(r: Result<DownloadPage, FromHtmlError>) -> Result<
    DownloadPageView,
    FromHtmlErrorView,
> {
    match r {
        Ok(p) => Ok(p@),
        Err(e) => Err(e@),
    }
}

impl Download {
    /// Make this from a flattened row.
    pub fn from_row(row: &DownloadRowDom) -> (r: Result<Download, FromElementError>)
        ensures
            download_result_view(r) == spec_download_from_row(row@),
    {
        let title = match &row.title_text {
            Some(t) => t.clone(),
            None => {
                return Err(FromElementError::MissingTitle);
            },
        };
        let size = match &row.size_text {
            Some(t) => t.clone(),
            None => {
                return Err(FromElementError::MissingFileSize);
            },
        };
        let id = match &row.upload_id_attr {
            Some(attr) => match parse_u64(attr.as_str()) {
                Some(v) => v,
                None => {
                    return Err(FromElementError::InvalidId);
                },
            },
            None => {
                return Err(FromElementError::MissingId);
            },
        };
        let platforms = match &row.icon_classes {
            Some(icons) => match platform_list(icons) {
                Ok(platforms) => platforms,
                Err(PlatformsError::MissingPlatformString) => {
                    return Err(FromElementError::MissingPlatformString);
                },
                Err(PlatformsError::InvalidPlatformString(t)) => {
                    return Err(FromElementError::InvalidPlatformString(t));
                },
            },
            None => {
                return Err(FromElementError::MissingPlatforms);
            },
        };
        Ok(Download { title, size, id, platforms })
    }

    /// Attempt to parse the size of this download.
    ///
    /// This is a rough approximation,
    /// and usually a lower limit as the value has little precision.
    ///
    /// # Return
    /// * Returns the value in bytes, otherwise None.
    pub fn parse_size(&self) -> (r: Option<u64>)
        ensures
            r == spec_parse_size(self.size@),
    {
        parse_size_text(self.size.as_str())
    }
}

impl DownloadPage {
    /// Parse this from a flattened document.
    pub fn from_dom(dom: &DownloadPageDom) -> (r: Result<DownloadPage, FromHtmlError>)
        ensures
            page_result_view(r) == spec_download_page_from_dom(dom@),
    {
        let ghost all: Seq<DownloadRowDomView> = dom.rows.deep_view();
        proof {
            assert(all.skip(0) =~= all);
        }
        let mut downloads: Vec<Download> = Vec::new();
        let mut i: usize = 0;
        while i < dom.rows.len()
            invariant
                all == dom.rows.deep_view(),
                all.len() == dom.rows@.len(),
                forall|j: int| 0 <= j < all.len() ==> all[j] == dom.rows@[j]@,
                0 <= i <= dom.rows.len(),
                spec_downloads_from_rows(all) == (match spec_downloads_from_rows(
                    all.skip(i as int),
                ) {
                    Ok(rest) => Ok::<Seq<DownloadView>, FromElementErrorView>(
                        downloads.deep_view() + rest,
                    ),
                    Err(e) => Err::<Seq<DownloadView>, FromElementErrorView>(e),
                }),
            decreases dom.rows.len() - i,
        {
            proof {
                assert(all.skip(i as int).len() > 0);
                assert(all.skip(i as int)[0] == dom.rows@[i as int]@);
                assert(all.skip(i as int).drop_first() =~= all.skip(i + 1));
            }
            let download = match Download::from_row(&dom.rows[i]) {
                Ok(d) => d,
                Err(e) => {
                    return Err(FromHtmlError::InvalidDownload(e));
                },
            };
            let ghost prefix = downloads.deep_view();
            downloads.push(download);
            proof {
                assert(downloads.deep_view() =~= prefix.push(download@));
                match spec_downloads_from_rows(all.skip(i + 1)) {
                    Ok(rest) => {
                        assert(prefix + (seq![download@] + rest) =~= prefix.push(download@)
                            + rest);
                    },
                    Err(e) => {},
                }
            }
            i += 1;
        }
        proof {
            assert(all.skip(dom.rows@.len() as int) =~= Seq::<DownloadRowDomView>::empty());
            assert(downloads.deep_view() + Seq::<DownloadView>::empty() =~= downloads.deep_view());
        }
        Ok(DownloadPage { downloads })
    }

    /// Parse this from html
    pub fn from_html(html: &Html, selectors: &Selectors) -> (r: Result<DownloadPage, FromHtmlError>)
        ensures
            exists|dom: DownloadPageDomView| page_result_view(r) == spec_download_page_from_dom(
                dom,
            ),
    {
        let dom = download_page_dom(html, selectors);
        let r = Self::from_dom(&dom);
        proof {
            assert(page_result_view(r) == spec_download_page_from_dom(dom@));
        }
        r
    }
}

/// Every row of a sequence parses: the sequence parses to exactly one entry
/// per row, in order.
pub proof fn lemma_downloads_all_rows_ok(rows: Seq<DownloadRowDomView>)
    requires
        forall|i: int| 0 <= i < rows.len() ==> (#[trigger] spec_download_from_row(rows[i])) is Ok,
    ensures
        spec_downloads_from_rows(rows) is Ok,
        spec_downloads_from_rows(rows)->Ok_0.len() == rows.len(),
        forall|i: int|
            0 <= i < rows.len() ==> spec_downloads_from_rows(rows)->Ok_0[i]
                == spec_download_from_row(rows[i])->Ok_0,
    decreases rows.len(),
{
    if rows.len() > 0 {
        assert(spec_download_from_row(rows[0]) is Ok);
        assert(forall|i: int|
            0 <= i < rows.drop_first().len() ==> (#[trigger] spec_download_from_row(
                rows.drop_first()[i],
            )) is Ok) by {
            assert(forall|i: int|
                0 <= i < rows.drop_first().len() ==> rows.drop_first()[i] == rows[i + 1]);
        }
        lemma_downloads_all_rows_ok(rows.drop_first());
    }
}

/// The first malformed row decides the failure of the whole sequence.
pub proof fn lemma_downloads_first_err(rows: Seq<DownloadRowDomView>, k: int)
    requires
        0 <= k < rows.len(),
        forall|j: int| 0 <= j < k ==> (#[trigger] spec_download_from_row(rows[j])) is Ok,
        spec_download_from_row(rows[k]) is Err,
    ensures
        spec_downloads_from_rows(rows) == Err::<Seq<DownloadView>, FromElementErrorView>(
            spec_download_from_row(rows[k])->Err_0,
        ),
    decreases rows.len(),
{
    if k > 0 {
        assert(spec_download_from_row(rows[0]) is Ok);
        assert(forall|i: int|
            0 <= i < rows.drop_first().len() ==> rows.drop_first()[i] == rows[i + 1]);
        lemma_downloads_first_err(rows.drop_first(), k - 1);
    }
}

/// Law: a document whose download rows are all well-formed parses to exactly
/// one entry per row, in document order — no row is dropped or reordered.
pub proof fn lemma_download_page_in_order(dom: DownloadPageDomView)
    requires
        forall|i: int|
            0 <= i < dom.rows.len() ==> (#[trigger] spec_download_from_row(dom.rows[i])) is Ok,
    ensures
        spec_download_page_from_dom(dom) is Ok,
        spec_download_page_from_dom(dom)->Ok_0.downloads.len() == dom.rows.len(),
        forall|i: int|
            0 <= i < dom.rows.len() ==> spec_download_page_from_dom(dom)->Ok_0.downloads[i]
                == spec_download_from_row(dom.rows[i])->Ok_0,
{
    lemma_downloads_all_rows_ok(dom.rows);
}

/// Law: a document with one download row missing its title node, every
/// earlier row well-formed, fails with the row-level missing-title error and
/// yields no partial list.
pub proof fn lemma_download_page_missing_title(dom: DownloadPageDomView, k: int)
    requires
        0 <= k < dom.rows.len(),
        forall|j: int| 0 <= j < k ==> (#[trigger] spec_download_from_row(dom.rows[j])) is Ok,
        dom.rows[k].title_text is None,
    ensures
        spec_download_page_from_dom(dom) == Err::<DownloadPageView, FromHtmlErrorView>(
            FromHtmlErrorView::InvalidDownload(FromElementErrorView::MissingTitle),
        ),
{
    lemma_downloads_first_err(dom.rows, k);
}

} // verus!
