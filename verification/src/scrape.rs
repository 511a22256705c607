//! The boundary to the `scraper` crate: declarations of its document types,
//! trusted wrappers around the handful of query methods the extractors use,
//! the compiled-selector registry, and the verified glue that flattens a
//! document into the plain records of [`crate::dom`].
//!
//! A parsed document and the elements inside it are opaque here; nothing is
//! claimed about what a query returns. Every decision taken on the returned
//! values is made by verified code against the flattened records.

use vstd::prelude::*;
use scraper::ElementRef;
use scraper::Html;
use scraper::Selector;
use crate::dom::DownloadPageDom;
use crate::dom::DownloadRowDom;
use crate::dom::GamePageDom;
use crate::dom::ViewerDom;

verus! {

#[verifier::external_type_specification]
#[verifier::external_body]
pub struct ExHtml(Html);

#[verifier::external_type_specification]
#[verifier::external_body]
pub struct ExSelector(Selector);

#[verifier::external_type_specification]
#[verifier::external_body]
pub struct ExElementRef<'a>(ElementRef<'a>);

/// Relies on scraper::Html::parse_fragment: parses text as an HTML fragment.
#[verifier::external_body]
fn parse_fragment(text: &str) -> Html {
    Html::parse_fragment(text)
}

/// Whether `scraper::Selector::parse` accepts a selector expression; success
/// depends on the expression text alone.
pub uninterp spec fn selector_ok(s: Seq<char>) -> bool;

/// Relies on scraper::Selector::parse: compiles a CSS selector expression,
/// failing exactly on a malformed one.
#[verifier::external_body]
fn compile_selector(text: &str) -> (r: Option<Selector>)
    ensures
        r is Some <==> selector_ok(text@),
{
    Selector::parse(text).ok()
}

/// Relies on scraper::Html::select: the elements of the document that match
/// the selector, in document order.
#[verifier::external_body]
fn select_in_document<'a>(html: &'a Html, selector: &Selector) -> Vec<ElementRef<'a>> {
    html.select(selector).collect()
}

/// Relies on scraper::ElementRef::select: the descendants of the element that
/// match the selector, in document order.
#[verifier::external_body]
fn select_in_element<'a>(element: &ElementRef<'a>, selector: &Selector) -> Vec<ElementRef<'a>> {
    element.select(selector).collect()
}

/// Relies on scraper::ElementRef::text: the first text node under the
/// element, if any.
#[verifier::external_body]
fn first_text(element: &ElementRef<'_>) -> Option<String> {
    element.text().next().map(ToOwned::to_owned)
}

/// Relies on scraper::ElementRef::attr: the value of the named attribute on
/// the element, if present.
#[verifier::external_body]
fn attr_value(element: &ElementRef<'_>, name: &str) -> Option<String> {
    element.attr(name).map(ToOwned::to_owned)
}

/// Relies on scraper::node::Element::classes: the element's class names, in
/// no promised order.
#[verifier::external_body]
fn class_names(element: &ElementRef<'_>) -> Vec<String> {
    element.value().classes().map(ToOwned::to_owned).collect()
}

/// The fixed set of compiled selectors, built once at startup and passed by
/// reference to the extraction entry points.
#[derive(Debug)]
pub struct Selectors {
    pub game_title: Selector,
    pub twitter_url: Selector,
    pub csrf_token: Selector,
    pub download: Selector,
    pub download_btn: Selector,
    pub title: Selector,
    pub file_size: Selector,
    pub platforms: Selector,
    pub icon: Selector,
    pub view_html: Selector,
    pub iframe: Selector,
}

impl Selectors {
    /// Compile the fixed selector expressions. The registry is built exactly
    /// when the selector parser accepts every one of them; `None` means one
    /// is malformed — a programming error to surface at startup, not a
    /// runtime condition.
    pub fn new() -> (r: Option<Selectors>)
        ensures
            r is Some <==> (selector_ok(".game_title"@)
                && selector_ok("meta[name=\"twitter:url\"]"@)
                && selector_ok("meta[name=\"csrf_token\"]"@) && selector_ok(".upload"@)
                && selector_ok(".download_btn"@) && selector_ok(".name"@)
                && selector_ok(".file_size > span"@) && selector_ok(".download_platforms"@)
                && selector_ok("span.icon"@)
                && selector_ok(".view_html_game_page .iframe_placeholder"@)
                && selector_ok("iframe"@)),
    {
        let game_title = compile_selector(".game_title")?;
        let twitter_url = compile_selector("meta[name=\"twitter:url\"]")?;
        let csrf_token = compile_selector("meta[name=\"csrf_token\"]")?;
        let download = compile_selector(".upload")?;
        let download_btn = compile_selector(".download_btn")?;
        let title = compile_selector(".name")?;
        let file_size = compile_selector(".file_size > span")?;
        let platforms = compile_selector(".download_platforms")?;
        let icon = compile_selector("span.icon")?;
        let view_html = compile_selector(".view_html_game_page .iframe_placeholder")?;
        let iframe = compile_selector("iframe")?;
        Some(
            Selectors {
                game_title,
                twitter_url,
                csrf_token,
                download,
                download_btn,
                title,
                file_size,
                platforms,
                icon,
                view_html,
                iframe,
            },
        )
    }
}

/// The first match for a selector inside an element, if any.
fn first_in_element<'a>(element: &ElementRef<'a>, selector: &Selector) -> Option<ElementRef<'a>> {
    let found = select_in_element(element, selector);
    if found.len() > 0 {
        Some(found[0])
    } else {
        None
    }
}

/// The first match for a selector in a document, if any.
fn first_in_document<'a>(html: &'a Html, selector: &Selector) -> Option<ElementRef<'a>> {
    let found = select_in_document(html, selector);
    if found.len() > 0 {
        Some(found[0])
    } else {
        None
    }
}

/// Flatten one download row element.
fn row_dom(element: &ElementRef<'_>, selectors: &Selectors) -> DownloadRowDom {
    let title_text = match first_in_element(element, &selectors.title) {
        Some(el) => first_text(&el),
        None => None,
    };
    let size_text = match first_in_element(element, &selectors.file_size) {
        Some(el) => first_text(&el),
        None => None,
    };
    let upload_id_attr = match first_in_element(element, &selectors.download_btn) {
        Some(el) => attr_value(&el, "data-upload_id"),
        None => None,
    };
    let icon_classes = match first_in_element(element, &selectors.platforms) {
        Some(container) => {
            let icons = select_in_element(&container, &selectors.icon);
            let mut lists: Vec<Vec<String>> = Vec::new();
            let mut i: usize = 0;
            while i < icons.len()
                decreases icons.len() - i,
            {
                lists.push(class_names(&icons[i]));
                i += 1;
            }
            Some(lists)
        },
        None => None,
    };
    DownloadRowDom { title_text, size_text, upload_id_attr, icon_classes }
}

/// Flatten every download row of a document, in document order.
fn rows_dom(html: &Html, selectors: &Selectors) -> Vec<DownloadRowDom> {
    let row_elements = select_in_document(html, &selectors.download);
    let mut rows: Vec<DownloadRowDom> = Vec::new();
    let mut i: usize = 0;
    while i < row_elements.len()
        decreases row_elements.len() - i,
    {
        rows.push(row_dom(&row_elements[i], selectors));
        i += 1;
    }
    rows
}

/// Flatten the viewer container: read its `data-iframe` attribute, re-parse
/// that attribute's value as an independent fragment, and locate the `src`
/// attribute of the fragment's `iframe` element.
fn viewer_dom(element: &ElementRef<'_>, selectors: &Selectors) -> ViewerDom {
    match attr_value(element, "data-iframe") {
        None => ViewerDom::NoIFrame,
        Some(data) => {
            let fragment = parse_fragment(data.as_str());
            match first_in_document(&fragment, &selectors.iframe) {
                None => ViewerDom::NoIFrame,
                Some(iframe_el) => match attr_value(&iframe_el, "src") {
                    None => ViewerDom::NoSrc,
                    Some(src) => ViewerDom::Src(src),
                },
            }
        },
    }
}

/// Flatten a game page document.
pub fn game_page_dom(html: &Html, selectors: &Selectors) -> GamePageDom {
    let title_text = match first_in_document(html, &selectors.game_title) {
        Some(el) => first_text(&el),
        None => None,
    };
    let twitter_url_attr = match first_in_document(html, &selectors.twitter_url) {
        Some(el) => attr_value(&el, "content"),
        None => None,
    };
    let csrf_token_attr = match first_in_document(html, &selectors.csrf_token) {
        Some(el) => attr_value(&el, "value"),
        None => None,
    };
    let rows = rows_dom(html, selectors);
    let viewer = match first_in_document(html, &selectors.view_html) {
        Some(el) => Some(viewer_dom(&el, selectors)),
        None => None,
    };
    GamePageDom { title_text, twitter_url_attr, csrf_token_attr, rows, viewer }
}

/// Flatten a download page document.
pub fn download_page_dom(html: &Html, selectors: &Selectors) -> DownloadPageDom {
    DownloadPageDom { rows: rows_dom(html, selectors) }
}

} // verus!
