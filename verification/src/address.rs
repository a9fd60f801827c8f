//! Addresses of the catalog's documents, resolved against the base address
//! of the service by the `url` crate.

use vstd::prelude::*;
use vstd::string::*;

verus! {

/// The serialization of the URL that `url::Url::parse` reads from `input`, or
/// nothing where it reads no absolute URL from it.
pub uninterp spec fn url_parse(input: Seq<char>) -> Option<Seq<char>>;

/// The serialization of the URL that `url::Url::join` resolves `input` to
/// against the URL read from `base`, or nothing where either step fails.
pub uninterp spec fn url_join(base: Seq<char>, input: Seq<char>) -> Option<Seq<char>>;

/// The path segment under which the collections of a service are listed.
pub open spec fn collections_segment() -> Seq<char> {
    "collections/"@
}

/// The address of the service itself, as it is advertised.
pub open spec fn service_href(base: Seq<char>) -> Option<Seq<char>> {
    url_parse(base)
}

/// The address of the collection `id` of the service at `base`. It ends in a
/// slash, so that an item resolved against it lands below it.
pub open spec fn collection_href(base: Seq<char>, id: Seq<char>) -> Option<Seq<char>> {
    match url_join(base, collections_segment()) {
        Some(listing) => url_join(listing, id + "/"@),
        None => None,
    }
}

/// The address of the item `item` of the collection at `collection`.
pub open spec fn item_href(collection: Seq<char>, item: Seq<char>) -> Option<Seq<char>> {
    url_join(collection, item)
}

/// Calls `url::Url::parse` on `input` and hands back the URL's
/// serialization. Nothing is claimed of the text but that it is what the
/// crate reads from `input`.
#[verifier::external_body]
fn parse_url(input: &str) -> (r: Option<String>)
    ensures
        match r {
            Some(s) => url_parse(input@) == Some(s@),
            None => url_parse(input@) is None,
        },
{
    match url::Url::parse(input) {
        Ok(parsed) => Some(String::from(parsed)),
        Err(_) => None,
    }
}

/// Reads `base` as a URL and calls `url::Url::join` on it with `input`,
/// handing back the serialization of the result. Nothing is claimed of the
/// text but that it is what the crate resolves `input` to.
#[verifier::external_body]
fn join_url(base: &str, input: &str) -> (r: Option<String>)
    ensures
        match r {
            Some(s) => url_join(base@, input@) == Some(s@),
            None => url_join(base@, input@) is None,
        },
{
    match url::Url::parse(base) {
        Ok(parsed) => match parsed.join(input) {
            Ok(joined) => Some(String::from(joined)),
            Err(_) => None,
        },
        Err(_) => None,
    }
}

/// The address of the service at `base`.
pub fn service_address(base: &str) -> (r: Option<String>)
    ensures
        match r {
            Some(s) => service_href(base@) == Some(s@),
            None => service_href(base@) is None,
        },
{
    parse_url(base)
}

/// The address of the collection `id` of the service at `base`.
pub fn collection_address(base: &str, id: &str) -> (r: Option<String>)
    ensures
        match r {
            Some(s) => collection_href(base@, id@) == Some(s@),
            None => collection_href(base@, id@) is None,
        },
{
    match join_url(base, "collections/") {
        Some(listing) => {
            let segment = String::from_str(id).concat("/");
            join_url(listing.as_str(), segment.as_str())
        },
        None => None,
    }
}

/// The address of the item `item` below the collection address `collection`.
pub fn item_address(collection: &str, item: &str) -> (r: Option<String>)
    ensures
        match r {
            Some(s) => item_href(collection@, item@) == Some(s@),
            None => item_href(collection@, item@) is None,
        },
{
    join_url(collection, item)
}

} // verus!
