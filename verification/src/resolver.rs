//! Links of a page made absolute against its URL.

use vstd::prelude::*;

use crate::text::option_text;

verus! {

/// `url::Url`, a parsed URL; of its contents only the serialization is named.
#[verifier::external_type_specification]
#[verifier::external_body]
pub struct ExUrl(url::Url);

/// The serialization of a parsed URL.
pub uninterp spec fn url_text(url: url::Url) -> Seq<char>;

/// The serialization of `text` parsed as an absolute URL, or `None` where
/// `text` is not one.
pub uninterp spec fn parsed_url(text: Seq<char>) -> Option<Seq<char>>;

/// The serialization of `reference` parsed with the URL that serializes as
/// `base` as its base, or `None` where that fails.
pub uninterp spec fn joined_url(base: Seq<char>, reference: Seq<char>) -> Option<Seq<char>>;

/// `Url::parse`: the URL that the text denotes, and `None` for each error of
/// the parser.
#[verifier::external_body]
pub(crate) fn parse_url(text: &str) -> (r: Option<url::Url>)
    ensures
        match r {
            Some(url) => parsed_url(text@) == Some(url_text(url)),
            None => parsed_url(text@) is None,
        },
{
    url::Url::parse(text).ok()
}

/// `Url::join`: the URL that the reference denotes with `base` as the base
/// URL, and `None` for each error of the parser.
#[verifier::external_body]
pub(crate) fn join_url(base: &url::Url, reference: &str) -> (r: Option<url::Url>)
    ensures
        match r {
            Some(url) => joined_url(url_text(*base), reference@) == Some(url_text(url)),
            None => joined_url(url_text(*base), reference@) is None,
        },
{
    base.join(reference).ok()
}

/// `to_string` of a `Url`, which writes its serialization.
#[verifier::external_body]
pub(crate) fn url_string(url: &url::Url) -> (r: String)
    ensures
        r@ == url_text(*url),
{
    url.to_string()
}

/// The serialization of the base, where there is one.
pub open spec fn base_text(base: Option<&url::Url>) -> Option<Seq<char>> {
    match base {
        Some(url) => Some(url_text(*url)),
        None => None,
    }
}

/// What a link is taken for, given what joining it to the base gave: the
/// joined URL, or the link as written where there was none.
pub open spec fn joined_or_raw(href: Seq<char>, joined: Option<Seq<char>>) -> Seq<char> {
    match joined {
        Some(url) => url,
        None => href,
    }
}

/// The link `href` of a page whose URL serializes as `base`: joined to the
/// base where there is one and the two join, written as it stands otherwise.
pub open spec fn resolved(href: Seq<char>, base: Option<Seq<char>>) -> Seq<char> {
    match base {
        Some(base) => joined_or_raw(href, joined_url(base, href)),
        None => href,
    }
}

/// Picks the joined URL where there is one, and the link as written otherwise.
pub fn pick_joined(href: String, joined: Option<String>) -> (r: String)
    ensures
        r@ == joined_or_raw(href@, option_text(joined)),
{
    match joined {
        Some(url) => url,
        None => href,
    }
}

/// Makes `href` absolute against `base`; without a base, or where the two do
/// not join, `href` comes back as it is.
pub fn resolve(href: String, base: Option<&url::Url>) -> (r: String)
    ensures
        r@ == resolved(href@, base_text(base)),
        base is None ==> r@ == href@,
{
    match base {
        Some(base) => {
            let joined = match join_url(base, href.as_str()) {
                Some(url) => Some(url_string(&url)),
                None => None,
            };
            pick_joined(href, joined)
        },
        None => href,
    }
}

} // verus!
