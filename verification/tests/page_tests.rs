use itch_io::DownloadPage;
use itch_io::GamePage;
use itch_io::Platform;
use itch_io::Selectors;
use itch_io::download_page;
use itch_io::game_page;
use scraper::Html;

fn parse_document(text: &str) -> Html {
    Html::parse_document(text)
}

fn selectors() -> Selectors {
    Selectors::new().expect("the fixed selector set must compile")
}

#[test]
fn fixed_selector_set_compiles() {
    assert!(Selectors::new().is_some());
}

fn game_head() -> String {
    "<head>\
     <meta name=\"twitter:url\" content=\"https://tumblewed.itch.io/doghouse-2\">\
     <meta name=\"csrf_token\" value=\"token123\">\
     </head>"
        .to_string()
}

fn row(title: &str, size: &str, btn: &str, platforms: &str) -> String {
    format!(
        "<div class=\"upload\">\
         <strong class=\"name\">{title}</strong>\
         <div class=\"file_size\"><span>{size}</span></div>\
         {btn}\
         {platforms}\
         </div>"
    )
}

fn windows_platforms() -> &'static str {
    "<div class=\"download_platforms\"><span class=\"icon icon-windows8\"></span></div>"
}

fn game_doc(body: &str) -> String {
    format!(
        "<html>{head}<body><h1 class=\"game_title\">Doghouse 2</h1>{body}</body></html>",
        head = game_head()
    )
}

fn parse_game(doc: &str) -> Result<GamePage, game_page::FromHtmlError> {
    let sels = selectors();
    let html = parse_document(doc);
    GamePage::from_html(&html, &sels)
}

fn parse_downloads(doc: &str) -> Result<DownloadPage, download_page::FromHtmlError> {
    let sels = selectors();
    let html = parse_document(doc);
    DownloadPage::from_html(&html, &sels)
}

#[test]
fn game_page_end_to_end() {
    let body = row(
        "Doghouse2-win.zip",
        "45 MB",
        "<a class=\"download_btn\" data-upload_id=\"12345\">Download</a>",
        windows_platforms(),
    );
    let page = parse_game(&game_doc(&body)).expect("well-formed page must parse");

    assert_eq!(page.title, "Doghouse 2");
    assert_eq!(page.twitter_url, "https://tumblewed.itch.io/doghouse-2");
    assert_eq!(page.csrf_token, "token123");
    assert_eq!(page.view_html_url, None);
    assert_eq!(page.downloads.len(), 1);

    let download = &page.downloads[0];
    assert_eq!(download.title, "Doghouse2-win.zip");
    assert_eq!(download.size, "45 MB");
    assert_eq!(download.id, Some(12345));
    assert_eq!(download.platforms, vec![Platform::Windows]);
    assert_eq!(download.parse_size(), Some(45_000_000));
}

#[test]
fn game_page_rows_in_document_order() {
    let body = format!(
        "{}{}",
        row(
            "a.zip",
            "1 MB",
            "<a class=\"download_btn\" data-upload_id=\"1\"></a>",
            windows_platforms(),
        ),
        row(
            "b.zip",
            "2 kB",
            "<a class=\"download_btn\"></a>",
            "<div class=\"download_platforms\"></div>",
        ),
    );
    let page = parse_game(&game_doc(&body)).expect("well-formed page must parse");

    assert_eq!(page.downloads.len(), 2);
    assert_eq!(page.downloads[0].title, "a.zip");
    assert_eq!(page.downloads[0].id, Some(1));
    assert_eq!(page.downloads[1].title, "b.zip");
    assert_eq!(page.downloads[1].id, None);
    assert_eq!(page.downloads[1].platforms, Vec::<Platform>::new());
}

#[test]
fn game_page_missing_row_title_aborts_whole_page() {
    let body = format!(
        "{}{}",
        row(
            "a.zip",
            "1 MB",
            "<a class=\"download_btn\" data-upload_id=\"1\"></a>",
            windows_platforms(),
        ),
        "<div class=\"upload\">\
         <div class=\"file_size\"><span>2 kB</span></div>\
         <div class=\"download_platforms\"></div>\
         </div>",
    );
    assert_eq!(
        parse_game(&game_doc(&body)).unwrap_err(),
        game_page::FromHtmlError::InvalidDownload(game_page::FromElementError::MissingTitle)
    );
}

#[test]
fn game_page_field_errors() {
    let sels = selectors();

    let no_title = format!(
        "<html>{head}<body></body></html>",
        head = game_head()
    );
    let html = parse_document(&no_title);
    assert_eq!(
        GamePage::from_html(&html, &sels).unwrap_err(),
        game_page::FromHtmlError::MissingTitle
    );

    let no_twitter = "<html><head>\
        <meta name=\"csrf_token\" value=\"token123\">\
        </head><body><h1 class=\"game_title\">G</h1></body></html>";
    let html = parse_document(no_twitter);
    assert_eq!(
        GamePage::from_html(&html, &sels).unwrap_err(),
        game_page::FromHtmlError::MissingTwitterUrl
    );

    let bad_twitter = "<html><head>\
        <meta name=\"twitter:url\" content=\"not a url\">\
        <meta name=\"csrf_token\" value=\"token123\">\
        </head><body><h1 class=\"game_title\">G</h1></body></html>";
    let html = parse_document(bad_twitter);
    assert_eq!(
        GamePage::from_html(&html, &sels).unwrap_err(),
        game_page::FromHtmlError::InvalidTwitterUrl
    );

    let no_csrf = "<html><head>\
        <meta name=\"twitter:url\" content=\"https://example.com/g\">\
        </head><body><h1 class=\"game_title\">G</h1></body></html>";
    let html = parse_document(no_csrf);
    assert_eq!(
        GamePage::from_html(&html, &sels).unwrap_err(),
        game_page::FromHtmlError::MissingCsrfToken
    );
}

#[test]
fn game_page_row_errors() {
    let missing_size = row("a.zip", "", "", windows_platforms()).replace(
        "<div class=\"file_size\"><span></span></div>",
        "",
    );
    assert_eq!(
        parse_game(&game_doc(&missing_size)).unwrap_err(),
        game_page::FromHtmlError::InvalidDownload(game_page::FromElementError::MissingFileSize)
    );

    let invalid_id = row(
        "a.zip",
        "1 MB",
        "<a class=\"download_btn\" data-upload_id=\"abc\"></a>",
        windows_platforms(),
    );
    assert_eq!(
        parse_game(&game_doc(&invalid_id)).unwrap_err(),
        game_page::FromHtmlError::InvalidDownload(game_page::FromElementError::InvalidId)
    );

    let missing_platforms = row("a.zip", "1 MB", "", "");
    assert_eq!(
        parse_game(&game_doc(&missing_platforms)).unwrap_err(),
        game_page::FromHtmlError::InvalidDownload(game_page::FromElementError::MissingPlatforms)
    );

    let missing_platform_string = row(
        "a.zip",
        "1 MB",
        "",
        "<div class=\"download_platforms\"><span class=\"icon\"></span></div>",
    );
    assert_eq!(
        parse_game(&game_doc(&missing_platform_string)).unwrap_err(),
        game_page::FromHtmlError::InvalidDownload(
            game_page::FromElementError::MissingPlatformString
        )
    );

    let invalid_platform_string = row(
        "a.zip",
        "1 MB",
        "",
        "<div class=\"download_platforms\"><span class=\"icon icon-amiga\"></span></div>",
    );
    assert_eq!(
        parse_game(&game_doc(&invalid_platform_string)).unwrap_err(),
        game_page::FromHtmlError::InvalidDownload(
            game_page::FromElementError::InvalidPlatformString("amiga".to_string())
        )
    );
}

fn viewer(data_iframe_attr: &str) -> String {
    format!(
        "<div class=\"view_html_game_page\"><div class=\"iframe_placeholder\"{data_iframe_attr}>\
         </div></div>"
    )
}

#[test]
fn game_page_url_is_normalized_by_the_parser() {
    let doc = "<html><head>\
        <meta name=\"twitter:url\" content=\"HTTPS://EXAMPLE.com\">\
        <meta name=\"csrf_token\" value=\"t\">\
        </head><body><h1 class=\"game_title\">G</h1></body></html>";
    let page = parse_game(doc).expect("page with valid url must parse");
    assert_eq!(page.twitter_url, "https://example.com/");
}

#[test]
fn game_page_viewer_url_is_extracted() {
    let body = viewer(
        " data-iframe=\"&lt;iframe src=&quot;https://itch.io/embed-upload/99&quot;&gt;&lt;/iframe&gt;\"",
    );
    let page = parse_game(&game_doc(&body)).expect("page with viewer must parse");
    assert_eq!(page.view_html_url, Some("https://itch.io/embed-upload/99".to_string()));
}

#[test]
fn game_page_viewer_fragment_without_iframe_fails() {
    let body = viewer(" data-iframe=\"&lt;div&gt;&lt;/div&gt;\"");
    assert_eq!(
        parse_game(&game_doc(&body)).unwrap_err(),
        game_page::FromHtmlError::MissingIFrameData
    );
}

#[test]
fn game_page_viewer_without_attribute_fails() {
    let body = viewer("");
    assert_eq!(
        parse_game(&game_doc(&body)).unwrap_err(),
        game_page::FromHtmlError::MissingIFrameData
    );
}

#[test]
fn game_page_viewer_iframe_without_src_fails() {
    let body = viewer(" data-iframe=\"&lt;iframe&gt;&lt;/iframe&gt;\"");
    assert_eq!(
        parse_game(&game_doc(&body)).unwrap_err(),
        game_page::FromHtmlError::MissingIFrameDataSrc
    );
}

#[test]
fn game_page_viewer_invalid_src_fails() {
    let body = viewer(" data-iframe=\"&lt;iframe src=&quot;not a url&quot;&gt;&lt;/iframe&gt;\"");
    assert_eq!(
        parse_game(&game_doc(&body)).unwrap_err(),
        game_page::FromHtmlError::InvalidIFrameDataSrc
    );
}

#[test]
fn download_page_end_to_end() {
    let body = format!(
        "{}{}",
        row(
            "a.zip",
            "1 MB",
            "<a class=\"download_btn\" data-upload_id=\"11\"></a>",
            windows_platforms(),
        ),
        row(
            "b.zip",
            "2 kB",
            "<a class=\"download_btn\" data-upload_id=\"22\"></a>",
            "<div class=\"download_platforms\">\
             <span class=\"icon icon-tux\"></span>\
             <span class=\"icon icon-apple\"></span>\
             </div>",
        ),
    );
    let doc = format!("<html><head></head><body>{body}</body></html>");
    let page = parse_downloads(&doc).expect("well-formed download page must parse");

    assert_eq!(page.downloads.len(), 2);
    assert_eq!(page.downloads[0].title, "a.zip");
    assert_eq!(page.downloads[0].id, 11);
    assert_eq!(page.downloads[0].platforms, vec![Platform::Windows]);
    assert_eq!(page.downloads[0].parse_size(), Some(1_000_000));
    assert_eq!(page.downloads[1].title, "b.zip");
    assert_eq!(page.downloads[1].id, 22);
    assert_eq!(page.downloads[1].platforms, vec![Platform::Linux, Platform::MacOs]);
    assert_eq!(page.downloads[1].parse_size(), Some(2_000));
}

#[test]
fn download_page_id_is_mandatory() {
    let body = row("a.zip", "1 MB", "<a class=\"download_btn\"></a>", windows_platforms());
    let doc = format!("<html><head></head><body>{body}</body></html>");
    assert_eq!(
        parse_downloads(&doc).unwrap_err(),
        download_page::FromHtmlError::InvalidDownload(download_page::FromElementError::MissingId)
    );

    let body = row("a.zip", "1 MB", "", windows_platforms());
    let doc = format!("<html><head></head><body>{body}</body></html>");
    assert_eq!(
        parse_downloads(&doc).unwrap_err(),
        download_page::FromHtmlError::InvalidDownload(download_page::FromElementError::MissingId)
    );
}

#[test]
fn download_page_missing_title_aborts_whole_page() {
    let body = format!(
        "{}{}",
        row(
            "a.zip",
            "1 MB",
            "<a class=\"download_btn\" data-upload_id=\"1\"></a>",
            windows_platforms(),
        ),
        "<div class=\"upload\">\
         <div class=\"file_size\"><span>2 kB</span></div>\
         <a class=\"download_btn\" data-upload_id=\"2\"></a>\
         <div class=\"download_platforms\"></div>\
         </div>",
    );
    let doc = format!("<html><head></head><body>{body}</body></html>");
    assert_eq!(
        parse_downloads(&doc).unwrap_err(),
        download_page::FromHtmlError::InvalidDownload(
            download_page::FromElementError::MissingTitle
        )
    );
}

#[test]
fn download_page_without_rows_is_empty() {
    let page = parse_downloads("<html><head></head><body></body></html>")
        .expect("a document without rows parses to an empty page");
    assert_eq!(page.downloads.len(), 0);
}
