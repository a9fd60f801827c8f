use autostac::address::{collection_address, item_address, service_address};

#[test]
fn the_address_of_a_service_is_written_in_full() {
    assert_eq!(service_address("http://localhost:8000"), Some(String::from("http://localhost:8000/")));
    assert_eq!(service_address("HTTP://Example.COM/a/../b"), Some(String::from("http://example.com/b")));
    assert_eq!(service_address("https://example.org/stac/"), Some(String::from("https://example.org/stac/")));
}

#[test]
fn text_that_is_no_address_gives_none() {
    assert_eq!(service_address(""), None);
    assert_eq!(service_address("./data"), None);
    assert_eq!(service_address("localhost"), None);
    assert_eq!(service_address("http://"), None);
}

#[test]
fn a_collection_is_addressed_below_the_listing() {
    assert_eq!(
        collection_address("http://localhost:8000", "imagery"),
        Some(String::from("http://localhost:8000/collections/imagery/"))
    );
    assert_eq!(
        collection_address("http://localhost:8000/stac/", "dem"),
        Some(String::from("http://localhost:8000/stac/collections/dem/"))
    );
    assert_eq!(
        collection_address("http://localhost:8000/stac", "dem"),
        Some(String::from("http://localhost:8000/collections/dem/"))
    );
}

#[test]
fn an_empty_identifier_addresses_the_root() {
    assert_eq!(collection_address("http://localhost:8000", ""), Some(String::from("http://localhost:8000/")));
    assert_eq!(
        collection_address("http://localhost:8000/stac/", ""),
        Some(String::from("http://localhost:8000/"))
    );
}

#[test]
fn an_identifier_is_resolved_as_a_reference() {
    assert_eq!(
        collection_address("http://localhost:8000", ".."),
        Some(String::from("http://localhost:8000/"))
    );
    assert_eq!(
        collection_address("http://localhost:8000", "a b"),
        Some(String::from("http://localhost:8000/collections/a%20b/"))
    );
    assert_eq!(
        collection_address("http://localhost:8000", "/top"),
        Some(String::from("http://localhost:8000/top/"))
    );
    assert_eq!(
        collection_address("http://localhost:8000", "ftp://elsewhere/x"),
        Some(String::from("ftp://elsewhere/x/"))
    );
}

#[test]
fn a_collection_has_no_address_where_the_base_has_none() {
    assert_eq!(collection_address("./data", "imagery"), None);
    assert_eq!(collection_address("mailto:someone@example.com", "imagery"), None);
    assert_eq!(collection_address("http://localhost:8000", "//["), None);
}

#[test]
fn an_item_is_addressed_below_its_collection() {
    assert_eq!(
        item_address("http://localhost:8000/collections/imagery/", "a"),
        Some(String::from("http://localhost:8000/collections/imagery/a"))
    );
    assert_eq!(
        item_address("http://localhost:8000/collections/imagery", "a"),
        Some(String::from("http://localhost:8000/collections/a"))
    );
    assert_eq!(
        item_address("http://localhost:8000/collections/imagery/", "sub/a.tif"),
        Some(String::from("http://localhost:8000/collections/imagery/sub/a.tif"))
    );
    assert_eq!(
        item_address("http://localhost:8000/collections/imagery/", ""),
        Some(String::from("http://localhost:8000/collections/imagery/"))
    );
    assert_eq!(item_address("collections/imagery/", "a"), None);
}
