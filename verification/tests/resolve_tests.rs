use itch_io::Platform;
use itch_io::download_page;
use itch_io::game_page;
use itch_io::resolve::ResolutionStep;
use itch_io::resolve::ResolveError;
use itch_io::resolve::finish_resolution;
use itch_io::resolve::resolve_id_by_title;
use itch_io::resolve::start_resolution;

fn page_entry(title: &str, id: u64) -> download_page::Download {
    download_page::Download {
        title: title.to_string(),
        size: "1 MB".to_string(),
        id,
        platforms: vec![Platform::Windows],
    }
}

fn pending_download(title: &str) -> game_page::Download {
    game_page::Download {
        title: title.to_string(),
        size: "1 MB".to_string(),
        id: None,
        platforms: Vec::new(),
    }
}

#[test]
fn known_id_is_already_resolved() {
    let download = game_page::Download {
        title: "Doghouse2-win.zip".to_string(),
        size: "45 MB".to_string(),
        id: Some(12345),
        platforms: vec![Platform::Windows],
    };
    assert_eq!(start_resolution(&download), ResolutionStep::Resolved(12345));
}

#[test]
fn absent_id_needs_download_page() {
    let download = pending_download("Doghouse2-win.zip");
    assert_eq!(start_resolution(&download), ResolutionStep::NeedDownloadPage);
}

#[test]
fn matching_title_yields_entry_id() {
    let page = download_page::DownloadPage {
        downloads: vec![page_entry("Other.zip", 1), page_entry("Doghouse2-win.zip", 777)],
    };
    let download = pending_download("Doghouse2-win.zip");
    assert_eq!(finish_resolution(&download, &page), Ok(777));
}

#[test]
fn no_matching_title_is_a_hard_error() {
    let page = download_page::DownloadPage {
        downloads: vec![page_entry("Other.zip", 1), page_entry("Another.zip", 2)],
    };
    let download = pending_download("Doghouse2-win.zip");
    assert_eq!(finish_resolution(&download, &page), Err(ResolveError::NoMatchingDownload));
}

#[test]
fn empty_page_is_a_hard_error() {
    let page = download_page::DownloadPage { downloads: Vec::new() };
    assert_eq!(
        resolve_id_by_title(&page, "anything"),
        Err(ResolveError::NoMatchingDownload)
    );
}

#[test]
fn duplicate_titles_pick_first_match() {
    let page = download_page::DownloadPage {
        downloads: vec![
            page_entry("Same.zip", 10),
            page_entry("Same.zip", 20),
        ],
    };
    assert_eq!(resolve_id_by_title(&page, "Same.zip"), Ok(10));
}

#[test]
fn title_match_is_exact() {
    let page = download_page::DownloadPage {
        downloads: vec![page_entry("Doghouse2-win.zip", 5)],
    };
    assert_eq!(
        resolve_id_by_title(&page, "doghouse2-win.zip"),
        Err(ResolveError::NoMatchingDownload)
    );
}
