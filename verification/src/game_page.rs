//! The page for a game: its title, canonical URL (scraped from twitter
//! metadata), csrf token, download entries, and optional embedded-viewer URL.
//!
//! Parsing is all-or-nothing: the first missing or invalid field of the page
//! or of any download row fails the whole page. A partially parseable page is
//! evidence that the site layout changed and must not be silently degraded
//! into incomplete data.

use vstd::prelude::*;
use scraper::Html;
use crate::dom::DownloadRowDom;
use crate::dom::DownloadRowDomView;
use crate::dom::GamePageDom;
use crate::dom::GamePageDomView;
use crate::dom::ViewerDomView;
use crate::platform::Platform;
use crate::platform::PlatformsError;
use crate::platform::PlatformsErrorView;
use crate::platform::platform_list;
use crate::platform::spec_platform_list;
use crate::scrape::Selectors;
use crate::scrape::game_page_dom;
use crate::size::spec_parse_size;
use crate::size::parse_size_text;
use crate::text::parse_u64;
use crate::text::spec_parse_u64;
use crate::urls::is_normalized_url;
use crate::urls::parse_url;
use crate::urls::url_parse_spec;

verus! {

/// Error that may occur while parsing a download
#[derive(Debug, PartialEq, Eq)]
pub enum FromElementError {
    /// Missing Title
    MissingTitle,
    /// Missing file size
    MissingFileSize,
    /// Invalid id
    InvalidId,
    /// Missing platforms
    MissingPlatforms,
    /// Missing a platform string
    MissingPlatformString,
    /// Invalid platform
    InvalidPlatformString(String),
}

/// The view of an element-level parse failure.
pub ghost enum FromElementErrorView {
    MissingTitle,
    MissingFileSize,
    InvalidId,
    MissingPlatforms,
    MissingPlatformString,
    InvalidPlatformString(Seq<char>),
}

impl View for FromElementError {
    type V = FromElementErrorView;

    open spec fn view(&self) -> FromElementErrorView {
        match self {
            FromElementError::MissingTitle => FromElementErrorView::MissingTitle,
            FromElementError::MissingFileSize => FromElementErrorView::MissingFileSize,
            FromElementError::InvalidId => FromElementErrorView::InvalidId,
            FromElementError::MissingPlatforms => FromElementErrorView::MissingPlatforms,
            FromElementError::MissingPlatformString => FromElementErrorView::MissingPlatformString,
            FromElementError::InvalidPlatformString(t) => FromElementErrorView::InvalidPlatformString(
                t@,
            ),
        }
    }
}

/// Error that may occur while parsing a game page
#[derive(Debug, PartialEq, Eq)]
pub enum FromHtmlError {
    /// Missing title
    MissingTitle,
    /// Missing twitter url
    MissingTwitterUrl,
    /// Invalid twitter url
    InvalidTwitterUrl,
    /// Missing csrf token
    MissingCsrfToken,
    /// Missing download
    MissingDownload,
    /// Invalid download
    InvalidDownload(FromElementError),
    /// Missing iframe data
    MissingIFrameData,
    /// Missing iframe data src
    MissingIFrameDataSrc,
    /// Invalid iframe data src
    InvalidIFrameDataSrc,
}

/// The view of a page-level parse failure.
pub ghost enum FromHtmlErrorView {
    MissingTitle,
    MissingTwitterUrl,
    InvalidTwitterUrl,
    MissingCsrfToken,
    MissingDownload,
    InvalidDownload(FromElementErrorView),
    MissingIFrameData,
    MissingIFrameDataSrc,
    InvalidIFrameDataSrc,
}

impl View for FromHtmlError {
    type V = FromHtmlErrorView;

    open spec fn view(&self) -> FromHtmlErrorView {
        match self {
            FromHtmlError::MissingTitle => FromHtmlErrorView::MissingTitle,
            FromHtmlError::MissingTwitterUrl => FromHtmlErrorView::MissingTwitterUrl,
            FromHtmlError::InvalidTwitterUrl => FromHtmlErrorView::InvalidTwitterUrl,
            FromHtmlError::MissingCsrfToken => FromHtmlErrorView::MissingCsrfToken,
            FromHtmlError::MissingDownload => FromHtmlErrorView::MissingDownload,
            FromHtmlError::InvalidDownload(e) => FromHtmlErrorView::InvalidDownload(e@),
            FromHtmlError::MissingIFrameData => FromHtmlErrorView::MissingIFrameData,
            FromHtmlError::MissingIFrameDataSrc => FromHtmlErrorView::MissingIFrameDataSrc,
            FromHtmlError::InvalidIFrameDataSrc => FromHtmlErrorView::InvalidIFrameDataSrc,
        }
    }
}

/// A download
#[derive(Debug)]
pub struct Download {
    /// Download title
    pub title: String,
    /// Download size
    ///
    /// This is a string representation.
    /// The format is something like `N {specifier}`
    /// where `specifier` is 'MB' or 'kB'.
    pub size: String,
    /// Download id, if it exists
    pub id: Option<u64>,
    /// The platforms this download is for
    pub platforms: Vec<Platform>,
}

/// The view of a download entry.
pub ghost struct DownloadView {
    pub title: Seq<char>,
    pub size: Seq<char>,
    pub id: Option<u64>,
    pub platforms: Seq<Platform>,
}

impl View for Download {
    type V = DownloadView;

    open spec fn view(&self) -> DownloadView {
        DownloadView {
            title: self.title@,
            size: self.size@,
            id: self.id,
            platforms: self.platforms.deep_view(),
        }
    }
}

impl DeepView for Download {
    type V = DownloadView;

    open spec fn deep_view(&self) -> DownloadView {
        self.view()
    }
}

/// The page for a game
#[derive(Debug)]
pub struct GamePage {
    /// The title of this game
    pub title: String,
    /// The url of this page.
    ///
    /// This is called `twitter_url` as it is scraped from twitter metadata on
    /// the page. It is always the normalized text of a valid absolute URL.
    pub twitter_url: String,
    /// A csrf token
    pub csrf_token: String,
    /// Download ids
    pub downloads: Vec<Download>,
    /// The view html url, when the page embeds a viewer. When present it is
    /// always the normalized text of a valid absolute URL.
    pub view_html_url: Option<String>,
}

/// The view of a game page.
pub ghost struct GamePageView {
    pub title: Seq<char>,
    pub twitter_url: Seq<char>,
    pub csrf_token: Seq<char>,
    pub downloads: Seq<DownloadView>,
    pub view_html_url: Option<Seq<char>>,
}

impl View for GamePage {
    type V = GamePageView;

    open spec fn view(&self) -> GamePageView {
        GamePageView {
            title: self.title@,
            twitter_url: self.twitter_url@,
            csrf_token: self.csrf_token@,
            downloads: self.downloads.deep_view(),
            view_html_url: self.view_html_url.deep_view(),
        }
    }
}

/// The download entry a row denotes, or the first field-level failure in the
/// order title, file size, id, platforms. The id attribute may be absent —
/// the site defers id assignment until purchase or claim — but when present
/// it must parse as an unsigned integer.
pub open spec fn spec_download_from_row(row: DownloadRowDomView) -> Result<
    DownloadView,
    FromElementErrorView,
> {
    match row.title_text {
        None => Err(FromElementErrorView::MissingTitle),
        Some(title) => match row.size_text {
            None => Err(FromElementErrorView::MissingFileSize),
            Some(size) => {
                let id_result = match row.upload_id_attr {
                    None => Ok(None),
                    Some(attr) => match spec_parse_u64(attr) {
                        None => Err(FromElementErrorView::InvalidId),
                        Some(id) => Ok(Some(id)),
                    },
                };
                match id_result {
                    Err(e) => Err(e),
                    Ok(id) => match row.icon_classes {
                        None => Err(FromElementErrorView::MissingPlatforms),
                        Some(icons) => match spec_platform_list(icons) {
                            Err(PlatformsErrorView::MissingPlatformString) => Err(
                                FromElementErrorView::MissingPlatformString,
                            ),
                            Err(PlatformsErrorView::InvalidPlatformString(t)) => Err(
                                FromElementErrorView::InvalidPlatformString(t),
                            ),
                            Ok(platforms) => Ok(DownloadView { title, size, id, platforms }),
                        },
                    },
                }
            },
        },
    }
}

/// The entries of a sequence of rows, in order; the first failing row aborts
/// the whole sequence.
pub open spec fn spec_downloads_from_rows(rows: Seq<DownloadRowDomView>) -> Result<
    Seq<DownloadView>,
    FromElementErrorView,
>
    decreases rows.len(),
{
    if rows.len() == 0 {
        Ok(Seq::empty())
    } else {
        match spec_download_from_row(rows[0]) {
            Err(e) => Err(e),
            Ok(d) => match spec_downloads_from_rows(rows.drop_first()) {
                Ok(rest) => Ok(seq![d] + rest),
                Err(e) => Err(e),
            },
        }
    }
}

/// The embedded-viewer URL the viewer container denotes. An absent container
/// is legitimate (`Ok(None)`); once the container exists, every sub-step is
/// mandatory: the `data-iframe` attribute, the `iframe` element of its
/// fragment, that element's `src` attribute, and a valid URL in it.
pub open spec fn spec_viewer_url(viewer: Option<ViewerDomView>) -> Result<
    Option<Seq<char>>,
    FromHtmlErrorView,
> {
    match viewer {
        None => Ok(None),
        Some(ViewerDomView::NoIFrame) => Err(FromHtmlErrorView::MissingIFrameData),
        Some(ViewerDomView::NoSrc) => Err(FromHtmlErrorView::MissingIFrameDataSrc),
        Some(ViewerDomView::Src(src)) => match url_parse_spec(src) {
            None => Err(FromHtmlErrorView::InvalidIFrameDataSrc),
            Some(url) => Ok(Some(url)),
        },
    }
}

/// The game page a document denotes, or its first failure in the order
/// title, twitter url, csrf token, download rows, viewer.
pub open spec fn spec_game_page_from_dom(dom: GamePageDomView) -> Result<
    GamePageView,
    FromHtmlErrorView,
> {
    match dom.title_text {
        None => Err(FromHtmlErrorView::MissingTitle),
        Some(title) => match dom.twitter_url_attr {
            None => Err(FromHtmlErrorView::MissingTwitterUrl),
            Some(url_text) => match url_parse_spec(url_text) {
                None => Err(FromHtmlErrorView::InvalidTwitterUrl),
                Some(twitter_url) => match dom.csrf_token_attr {
                    None => Err(FromHtmlErrorView::MissingCsrfToken),
                    Some(csrf_token) => match spec_downloads_from_rows(dom.rows) {
                        Err(e) => Err(FromHtmlErrorView::InvalidDownload(e)),
                        Ok(downloads) => match spec_viewer_url(dom.viewer) {
                            Err(e) => Err(e),
                            Ok(view_html_url) => Ok(
                                GamePageView {
                                    title,
                                    twitter_url,
                                    csrf_token,
                                    downloads,
                                    view_html_url,
                                },
                            ),
                        },
                    },
                },
            },
        },
    }
}

/// The view of a row-parse result.
pub open spec fn download_result_view(r: Result<Download, FromElementError>) -> Result<
    DownloadView,
    FromElementErrorView,
> {
    match r {
        Ok(d) => Ok(d@),
        Err(e) => Err(e@),
    }
}

/// The view of a page-parse result.
pub open spec fn page_result_view(r: Result<GamePage, FromHtmlError>) -> Result<
    GamePageView,
    FromHtmlErrorView,
> {
    match r {
        Ok(p) => Ok(p@),
        Err(e) => Err(e@),
    }
}

impl Download {
    /// Parse a download from a flattened row.
    pub fn from_row(row: &DownloadRowDom) -> (r: Result<Download, FromElementError>)
        ensures
            download_result_view(r) == spec_download_from_row(row@),
    {
        let title = match &row.title_text {
            Some(t) => t.clone(),
            None => {
                return Err(FromElementError::MissingTitle);
            },
        };
        let size = match &row.size_text {
            Some(t) => t.clone(),
            None => {
                return Err(FromElementError::MissingFileSize);
            },
        };
        let id = match &row.upload_id_attr {
            Some(attr) => match parse_u64(attr.as_str()) {
                Some(v) => Some(v),
                None => {
                    return Err(FromElementError::InvalidId);
                },
            },
            None => None,
        };
        let platforms = match &row.icon_classes {
            Some(icons) => match platform_list(icons) {
                Ok(platforms) => platforms,
                Err(PlatformsError::MissingPlatformString) => {
                    return Err(FromElementError::MissingPlatformString);
                },
                Err(PlatformsError::InvalidPlatformString(t)) => {
                    return Err(FromElementError::InvalidPlatformString(t));
                },
            },
            None => {
                return Err(FromElementError::MissingPlatforms);
            },
        };
        Ok(Download { title, size, id, platforms })
    }

    /// Attempt to parse the size of this download.
    ///
    /// This is a rough approximation,
    /// and usually a lower limit as the value has little precision.
    ///
    /// # Return
    /// * Returns the value in bytes, otherwise None.
    pub fn parse_size(&self) -> (r: Option<u64>)
        ensures
            r == spec_parse_size(self.size@),
    {
        parse_size_text(self.size.as_str())
    }
}

impl GamePage {
    /// Parse a game page from a flattened document.
    pub fn from_dom(dom: &GamePageDom) -> (r: Result<GamePage, FromHtmlError>)
        ensures
            page_result_view(r) == spec_game_page_from_dom(dom@),
    {
        let title = match &dom.title_text {
            Some(t) => t.clone(),
            None => {
                return Err(FromHtmlError::MissingTitle);
            },
        };
        let twitter_url = match &dom.twitter_url_attr {
            Some(attr) => match parse_url(attr.as_str()) {
                Some(url) => url,
                None => {
                    return Err(FromHtmlError::InvalidTwitterUrl);
                },
            },
            None => {
                return Err(FromHtmlError::MissingTwitterUrl);
            },
        };
        let csrf_token = match &dom.csrf_token_attr {
            Some(t) => t.clone(),
            None => {
                return Err(FromHtmlError::MissingCsrfToken);
            },
        };
        let ghost all: Seq<DownloadRowDomView> = dom.rows.deep_view();
        proof {
            assert(all.skip(0) =~= all);
        }
        let mut downloads: Vec<Download> = Vec::new();
        let mut i: usize = 0;
        while i < dom.rows.len()
            invariant
                all == dom.rows.deep_view(),
                all.len() == dom.rows@.len(),
                forall|j: int| 0 <= j < all.len() ==> all[j] == dom.rows@[j]@,
                0 <= i <= dom.rows.len(),
                dom@.title_text is Some,
                dom@.twitter_url_attr is Some,
                url_parse_spec(dom@.twitter_url_attr->0) is Some,
                dom@.csrf_token_attr is Some,
                spec_downloads_from_rows(all) == (match spec_downloads_from_rows(
                    all.skip(i as int),
                ) {
                    Ok(rest) => Ok::<Seq<DownloadView>, FromElementErrorView>(
                        downloads.deep_view() + rest,
                    ),
                    Err(e) => Err::<Seq<DownloadView>, FromElementErrorView>(e),
                }),
            decreases dom.rows.len() - i,
        {
            proof {
                assert(all.skip(i as int).len() > 0);
                assert(all.skip(i as int)[0] == dom.rows@[i as int]@);
                assert(all.skip(i as int).drop_first() =~= all.skip(i + 1));
            }
            let download = match Download::from_row(&dom.rows[i]) {
                Ok(d) => d,
                Err(e) => {
                    return Err(FromHtmlError::InvalidDownload(e));
                },
            };
            let ghost prefix = downloads.deep_view();
            downloads.push(download);
            proof {
                assert(downloads.deep_view() =~= prefix.push(download@));
                match spec_downloads_from_rows(all.skip(i + 1)) {
                    Ok(rest) => {
                        assert(prefix + (seq![download@] + rest) =~= prefix.push(download@)
                            + rest);
                    },
                    Err(e) => {},
                }
            }
            i += 1;
        }
        proof {
            assert(all.skip(dom.rows@.len() as int) =~= Seq::<DownloadRowDomView>::empty());
            assert(downloads.deep_view() + Seq::<DownloadView>::empty() =~= downloads.deep_view());
        }
        let view_html_url = match &dom.viewer {
            None => None,
            Some(crate::dom::ViewerDom::NoIFrame) => {
                return Err(FromHtmlError::MissingIFrameData);
            },
            Some(crate::dom::ViewerDom::NoSrc) => {
                return Err(FromHtmlError::MissingIFrameDataSrc);
            },
            Some(crate::dom::ViewerDom::Src(src)) => match parse_url(src.as_str()) {
                Some(url) => Some(url),
                None => {
                    return Err(FromHtmlError::InvalidIFrameDataSrc);
                },
            },
        };
        Ok(GamePage { title, twitter_url, csrf_token, downloads, view_html_url })
    }

    /// Parse a game page
    pub fn from_html(html: &Html, selectors: &Selectors) -> (r: Result<GamePage, FromHtmlError>)
        ensures
            exists|dom: GamePageDomView| page_result_view(r) == spec_game_page_from_dom(dom),
            r matches Ok(p) ==> is_normalized_url(p@.twitter_url),
            r matches Ok(p) ==> (p@.view_html_url matches Some(u) ==> is_normalized_url(u)),
    {
        let dom = game_page_dom(html, selectors);
        let r = Self::from_dom(&dom);
        proof {
            assert(page_result_view(r) == spec_game_page_from_dom(dom@));
            lemma_game_page_urls_valid(dom@);
        }
        r
    }
}

/// Every row of a sequence parses: the sequence parses to exactly one entry
/// per row, in order.
pub proof fn lemma_downloads_all_rows_ok(rows: Seq<DownloadRowDomView>)
    requires
        forall|i: int| 0 <= i < rows.len() ==> (#[trigger] spec_download_from_row(rows[i])) is Ok,
    ensures
        spec_downloads_from_rows(rows) is Ok,
        spec_downloads_from_rows(rows)->Ok_0.len() == rows.len(),
        forall|i: int|
            0 <= i < rows.len() ==> spec_downloads_from_rows(rows)->Ok_0[i]
                == spec_download_from_row(rows[i])->Ok_0,
    decreases rows.len(),
{
    if rows.len() > 0 {
        assert(spec_download_from_row(rows[0]) is Ok);
        assert(forall|i: int|
            0 <= i < rows.drop_first().len() ==> (#[trigger] spec_download_from_row(
                rows.drop_first()[i],
            )) is Ok) by {
            assert(forall|i: int|
                0 <= i < rows.drop_first().len() ==> rows.drop_first()[i] == rows[i + 1]);
        }
        lemma_downloads_all_rows_ok(rows.drop_first());
    }
}

/// The first malformed row decides the failure of the whole sequence.
pub proof fn lemma_downloads_first_err(rows: Seq<DownloadRowDomView>, k: int)
    requires
        0 <= k < rows.len(),
        forall|j: int| 0 <= j < k ==> (#[trigger] spec_download_from_row(rows[j])) is Ok,
        spec_download_from_row(rows[k]) is Err,
    ensures
        spec_downloads_from_rows(rows) == Err::<Seq<DownloadView>, FromElementErrorView>(
            spec_download_from_row(rows[k])->Err_0,
        ),
    decreases rows.len(),
{
    if k > 0 {
        assert(spec_download_from_row(rows[0]) is Ok);
        assert(forall|i: int|
            0 <= i < rows.drop_first().len() ==> rows.drop_first()[i] == rows[i + 1]);
        lemma_downloads_first_err(rows.drop_first(), k - 1);
    }
}

/// Law: a document whose page-level fields are well-formed and whose download
/// rows all parse yields exactly one entry per row, in document order.
pub proof fn lemma_game_page_in_order(dom: GamePageDomView)
    requires
        dom.title_text is Some,
        dom.twitter_url_attr matches Some(u) && url_parse_spec(u) is Some,
        dom.csrf_token_attr is Some,
        spec_viewer_url(dom.viewer) is Ok,
        forall|i: int|
            0 <= i < dom.rows.len() ==> (#[trigger] spec_download_from_row(dom.rows[i])) is Ok,
    ensures
        spec_game_page_from_dom(dom) is Ok,
        spec_game_page_from_dom(dom)->Ok_0.downloads.len() == dom.rows.len(),
        forall|i: int|
            0 <= i < dom.rows.len() ==> spec_game_page_from_dom(dom)->Ok_0.downloads[i]
                == spec_download_from_row(dom.rows[i])->Ok_0,
{
    lemma_downloads_all_rows_ok(dom.rows);
}

/// Law: a document with one download row missing its title node, every
/// earlier row well-formed, fails with the row-level missing-title error and
/// yields no partial list — whatever the rows after it or the viewer hold.
pub proof fn lemma_game_page_missing_title(dom: GamePageDomView, k: int)
    requires
        dom.title_text is Some,
        dom.twitter_url_attr matches Some(u) && url_parse_spec(u) is Some,
        dom.csrf_token_attr is Some,
        0 <= k < dom.rows.len(),
        forall|j: int| 0 <= j < k ==> (#[trigger] spec_download_from_row(dom.rows[j])) is Ok,
        dom.rows[k].title_text is None,
    ensures
        spec_game_page_from_dom(dom) == Err::<GamePageView, FromHtmlErrorView>(
            FromHtmlErrorView::InvalidDownload(FromElementErrorView::MissingTitle),
        ),
{
    lemma_downloads_first_err(dom.rows, k);
}

/// Law: a game page never constructs with an unvalidated URL — its canonical
/// URL, and its viewer URL when present, are the normalized text of strings
/// the URL parser accepted.
pub proof fn lemma_game_page_urls_valid(dom: GamePageDomView)
    ensures
        spec_game_page_from_dom(dom) matches Ok(p) ==> is_normalized_url(p.twitter_url),
        spec_game_page_from_dom(dom) matches Ok(p) ==> (p.view_html_url matches Some(u)
            ==> is_normalized_url(u)),
{
    if spec_game_page_from_dom(dom) is Ok {
        let p = spec_game_page_from_dom(dom)->Ok_0;
        assert(url_parse_spec(dom.twitter_url_attr->0) == Some(p.twitter_url));
        if p.view_html_url is Some {
            let src = dom.viewer->0->Src_0;
            assert(url_parse_spec(src) == Some(p.view_html_url->0));
            assert(is_normalized_url(p.view_html_url->0));
        }
    }
}

/// Law: once the viewer container exists, a fragment without an `iframe`
/// element fails the whole page with the iframe-data error; the viewer URL is
/// never silently defaulted to absent.
pub proof fn lemma_viewer_without_iframe_fails(dom: GamePageDomView)
    requires
        dom.title_text is Some,
        dom.twitter_url_attr matches Some(u) && url_parse_spec(u) is Some,
        dom.csrf_token_attr is Some,
        spec_downloads_from_rows(dom.rows) is Ok,
        dom.viewer == Some(ViewerDomView::NoIFrame),
    ensures
        spec_game_page_from_dom(dom) == Err::<GamePageView, FromHtmlErrorView>(
            FromHtmlErrorView::MissingIFrameData,
        ),
{
}

} // verus!
