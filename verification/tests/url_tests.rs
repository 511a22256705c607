use itch_io::urls::download_info_url;
use itch_io::urls::download_page_url_endpoint;
use itch_io::urls::parse_url;
use itch_io::urls::purchase_dialog_url;

#[test]
fn download_info_url_shape() {
    assert_eq!(
        download_info_url("https://tumblewed.itch.io/doghouse-2", 12345),
        "https://tumblewed.itch.io/doghouse-2/file/12345?after_download_lightbox=true"
    );
}

#[test]
fn download_page_url_endpoint_shape() {
    assert_eq!(
        download_page_url_endpoint("https://tumblewed.itch.io/doghouse-2"),
        "https://tumblewed.itch.io/doghouse-2/download_url"
    );
}

#[test]
fn purchase_dialog_url_shape() {
    assert_eq!(
        purchase_dialog_url("https://tumblewed.itch.io/doghouse-2"),
        "https://tumblewed.itch.io/doghouse-2/purchase?lightbox=true"
    );
}

#[test]
fn parse_url_normalizes() {
    assert_eq!(
        parse_url("HTTPS://EXAMPLE.com/Path"),
        Some("https://example.com/Path".to_string())
    );
    assert_eq!(parse_url("https://example.com"), Some("https://example.com/".to_string()));
}

#[test]
fn parse_url_rejects_invalid() {
    assert_eq!(parse_url("not a url"), None);
    assert_eq!(parse_url(""), None);
}
