use autostac::storage::{collection_name, item_name, object_href, object_path};

#[test]
fn a_prefix_names_its_collection_without_the_slashes() {
    assert_eq!(collection_name("imagery/"), "imagery");
    assert_eq!(collection_name("imagery"), "imagery");
    assert_eq!(collection_name("a/b//"), "a/b");
    assert_eq!(collection_name("/"), "");
    assert_eq!(collection_name(""), "");
    assert_eq!(collection_name("höhe/"), "höhe");
}

#[test]
fn a_key_under_the_prefix_names_a_record() {
    assert_eq!(item_name("imagery/a.tif", "imagery"), Some(String::from("a.tif")));
    assert_eq!(item_name("imagery/sub/a.tif", "imagery"), Some(String::from("sub/a.tif")));
    assert_eq!(item_name("imagery/", "imagery"), Some(String::new()));
    assert_eq!(item_name("höhe/ü.tif", "höhe"), Some(String::from("ü.tif")));
}

#[test]
fn a_key_elsewhere_names_no_record() {
    assert_eq!(item_name("imagery2/a.tif", "imagery"), None);
    assert_eq!(item_name("imagery", "imagery"), None);
    assert_eq!(item_name("a.tif", "imagery"), None);
    assert_eq!(item_name("", "imagery"), None);
}

#[test]
fn an_object_is_addressed_below_its_bucket() {
    assert_eq!(
        object_href("http://localhost:9000", "rasters", "imagery/a.tif"),
        "http://localhost:9000/rasters/imagery/a.tif"
    );
}

#[test]
fn an_object_is_opened_through_the_virtual_file_system() {
    assert_eq!(object_path("rasters", "imagery/a.tif"), "/vsis3/rasters/imagery/a.tif");
}
