//! Extraction of structured game metadata from a marketplace's semi-structured
//! HTML pages, and the client-side protocol that resolves a download's concrete
//! identifier when the initial page does not carry one.
//!
//! The library is organized around two page shapes, [`GamePage`] and
//! [`DownloadPage`], each built from the fields that a fixed set of CSS
//! selectors finds in a document. The selector queries themselves run through
//! the `scraper` crate; everything that interprets their results is verified.

use vstd::prelude::*;

pub mod dom;
pub mod download_page;
pub mod game_page;
pub mod platform;
pub mod resolve;
pub mod scrape;
pub mod size;
pub mod text;
pub mod urls;

pub use download_page::DownloadPage;
pub use game_page::GamePage;
pub use platform::Platform;
pub use scrape::Selectors;

verus! {

/// Download info
///
/// The flat JSON shape the download-info endpoint answers with; decoding the
/// JSON itself happens outside the library, which receives the fields as
/// plain values.
#[derive(Debug)]
pub struct DownloadInfo {
    /// Whether the download is hosted externally
    pub external: bool,
    /// Lightbox markup handed back by the endpoint
    pub lightbox: String,
    /// The download url
    pub url: String,
}

/// The download page url
///
/// The flat JSON shape the download-page-url endpoint answers with.
#[derive(Debug)]
pub struct DownloadPageUrlInfo {
    /// The download page url
    pub url: String,
}

} // verus!
