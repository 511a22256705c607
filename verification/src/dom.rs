//! The flattened form of a document that the extractors interpret.
//!
//! A fixed set of CSS selectors is run over the parsed document; what each
//! query found — or that it found nothing — is recorded here as plain values.
//! Everything downstream of this point is verified against these records.

use vstd::prelude::*;

verus! {

/// What the selector queries found inside one download row (a `.upload`
/// element): the first text node under its title and file-size sub-selectors,
/// the `data-upload_id` attribute of its download button, and the class lists
/// of the icons inside its platforms container (`None` when the container
/// itself is absent).
pub struct DownloadRowDom {
    /// First text node under the row's title sub-selector.
    pub title_text: Option<String>,
    /// First text node under the row's file-size sub-selector.
    pub size_text: Option<String>,
    /// The `data-upload_id` attribute of the row's download button, when both
    /// the button and the attribute are present.
    pub upload_id_attr: Option<String>,
    /// One entry per icon element inside the platforms container, each the
    /// icon's list of class names; `None` when the container is absent.
    pub icon_classes: Option<Vec<Vec<String>>>,
}

/// The view of a download row: every string as a sequence of characters.
pub ghost struct DownloadRowDomView {
    pub title_text: Option<Seq<char>>,
    pub size_text: Option<Seq<char>>,
    pub upload_id_attr: Option<Seq<char>>,
    pub icon_classes: Option<Seq<Seq<Seq<char>>>>,
}

impl View for DownloadRowDom {
    type V = DownloadRowDomView;

    open spec fn view(&self) -> DownloadRowDomView {
        DownloadRowDomView {
            title_text: self.title_text.deep_view(),
            size_text: self.size_text.deep_view(),
            upload_id_attr: self.upload_id_attr.deep_view(),
            icon_classes: self.icon_classes.deep_view(),
        }
    }
}

impl DeepView for DownloadRowDom {
    type V = DownloadRowDomView;

    open spec fn deep_view(&self) -> DownloadRowDomView {
        self.view()
    }
}

/// What was found for the optional embedded-viewer container, when the
/// container itself is present.
pub enum ViewerDom {
    /// The container has no `data-iframe` attribute, or the attribute's value,
    /// parsed as an independent HTML fragment, has no `iframe` element.
    NoIFrame,
    /// The fragment's `iframe` element has no `src` attribute.
    NoSrc,
    /// The `src` attribute of the fragment's `iframe` element, unparsed.
    Src(String),
}

/// The view of the viewer container's contents.
pub ghost enum ViewerDomView {
    NoIFrame,
    NoSrc,
    Src(Seq<char>),
}

impl View for ViewerDom {
    type V = ViewerDomView;

    open spec fn view(&self) -> ViewerDomView {
        match self {
            ViewerDom::NoIFrame => ViewerDomView::NoIFrame,
            ViewerDom::NoSrc => ViewerDomView::NoSrc,
            ViewerDom::Src(s) => ViewerDomView::Src(s@),
        }
    }
}

impl DeepView for ViewerDom {
    type V = ViewerDomView;

    open spec fn deep_view(&self) -> ViewerDomView {
        self.view()
    }
}

/// What the selector queries found in a game page document.
pub struct GamePageDom {
    /// First text node under the game-title selector.
    pub title_text: Option<String>,
    /// The `content` attribute of the twitter-url metadata element.
    pub twitter_url_attr: Option<String>,
    /// The `value` attribute of the csrf-token metadata element.
    pub csrf_token_attr: Option<String>,
    /// The download rows, in document order.
    pub rows: Vec<DownloadRowDom>,
    /// The viewer container's contents; `None` when the container is absent,
    /// which is legitimate (the page simply has no embedded viewer).
    pub viewer: Option<ViewerDom>,
}

/// The view of a game page document.
pub ghost struct GamePageDomView {
    pub title_text: Option<Seq<char>>,
    pub twitter_url_attr: Option<Seq<char>>,
    pub csrf_token_attr: Option<Seq<char>>,
    pub rows: Seq<DownloadRowDomView>,
    pub viewer: Option<ViewerDomView>,
}

impl View for GamePageDom {
    type V = GamePageDomView;

    open spec fn view(&self) -> GamePageDomView {
        GamePageDomView {
            title_text: self.title_text.deep_view(),
            twitter_url_attr: self.twitter_url_attr.deep_view(),
            csrf_token_attr: self.csrf_token_attr.deep_view(),
            rows: self.rows.deep_view(),
            viewer: self.viewer.deep_view(),
        }
    }
}

/// What the selector queries found in a download page document: only its
/// download rows, in document order.
pub struct DownloadPageDom {
    /// The download rows, in document order.
    pub rows: Vec<DownloadRowDom>,
}

/// The view of a download page document.
pub ghost struct DownloadPageDomView {
    pub rows: Seq<DownloadRowDomView>,
}

impl View for DownloadPageDom {
    type V = DownloadPageDomView;

    open spec fn view(&self) -> DownloadPageDomView {
        DownloadPageDomView { rows: self.rows.deep_view() }
    }
}

} // verus!
