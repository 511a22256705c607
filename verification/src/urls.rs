//! URL handling: validation of scraped URL text through the `url` crate, and
//! the construction of the endpoint URLs the resolution protocol posts to.

use vstd::prelude::*;
use vstd::string::StringExecFns;
use crate::text::fmt_u64;
use crate::text::spec_u64_digits;

verus! {

/// What `url::Url::parse` makes of a string: `None` when the string is not a
/// valid absolute URL, otherwise the normalized text of the parsed URL. The
/// result depends on the input string alone.
pub uninterp spec fn url_parse_spec(s: Seq<char>) -> Option<Seq<char>>;

/// Text that is the normalized form of some string the URL parser accepts —
/// the shape every URL held by a constructed record has.
pub open spec fn is_normalized_url(t: Seq<char>) -> bool {
    exists|s: Seq<char>| url_parse_spec(s) == Some(t)
}

/// Relies on url::Url::parse: rejects text that is not a valid absolute URL
/// and returns the parsed URL's normalized text otherwise.
#[verifier::external_body]
pub fn parse_url(s: &str) -> (r: Option<String>)
    ensures
        r.deep_view() == url_parse_spec(s@),
{
    match url::Url::parse(s) {
        Ok(u) => Some(String::from(u)),
        Err(_) => None,
    }
}

/// The URL the download-info request is posted to:
/// `{game_page_url}/file/{download_id}?after_download_lightbox=true`.
pub fn download_info_url(game_page_url: &str, download_id: u64) -> (r: String)
    ensures
        r@ == game_page_url@ + "/file/"@ + spec_u64_digits(download_id as int)
            + "?after_download_lightbox=true"@,
{
    let mut r = String::from_str(game_page_url);
    r.append("/file/");
    let id_digits = fmt_u64(download_id);
    r.append(id_digits.as_str());
    r.append("?after_download_lightbox=true");
    proof {
        assert(r@ =~= game_page_url@ + "/file/"@ + spec_u64_digits(download_id as int)
            + "?after_download_lightbox=true"@);
    }
    r
}

/// The URL the download-page-url request is posted to:
/// `{game_page_url}/download_url`.
pub fn download_page_url_endpoint(game_page_url: &str) -> (r: String)
    ensures
        r@ == game_page_url@ + "/download_url"@,
{
    let mut r = String::from_str(game_page_url);
    r.append("/download_url");
    r
}

/// The URL the purchase dialog is fetched from:
/// `{game_page_url}/purchase?lightbox=true`.
pub fn purchase_dialog_url(game_page_url: &str) -> (r: String)
    ensures
        r@ == game_page_url@ + "/purchase?lightbox=true"@,
{
    let mut r = String::from_str(game_page_url);
    r.append("/purchase?lightbox=true");
    r
}

} // verus!
