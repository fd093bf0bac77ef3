//! The parts of a connection URL that the engines' options are made of.

use vstd::prelude::*;

verus! {

#[verifier::external_type_specification]
#[verifier::external_body]
pub struct ExUrl(url::Url);

/// The host of a URL, written out, if the URL has one.
pub uninterp spec fn url_host_of(url: url::Url) -> Option<Seq<char>>;

/// The serialization of a URL.
pub uninterp spec fn url_text_of(url: url::Url) -> Seq<char>;

/// Relies on `url::Url::host`: the URL's host, if it has one, written out by the
/// host's `Display`; it depends on the URL alone.
#[verifier::external_body]
pub(crate) fn url_host(url: &url::Url) -> (r: Option<String>)
    ensures
        match url_host_of(*url) {
            Some(h) => r is Some && r->Some_0@ == h,
            None => r is None,
        },
{
    match url.host() {
        Some(host) => Some(host.to_string()),
        None => None,
    }
}

/// Relies on `url::Url`'s `Display`: the URL's serialization, which depends on
/// the URL alone.
#[verifier::external_body]
pub(crate) fn url_text(url: &url::Url) -> (r: String)
    ensures
        r@ == url_text_of(*url),
{
    url.to_string()
}

} // verus!
