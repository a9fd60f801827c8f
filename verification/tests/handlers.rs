use autostac::catalog::{ImageryCollection, ImageryFile, Resolution, Service};
use autostac::geometry::{Coordinate, Polygon};
use autostac::handlers::{
    bbox_to_bounds, get_collection, get_collection_item, landing, limit_of, parse_sort, search,
    search_all_collections, CollectionReply, Evaluation, FilterShape, GeometryKind, LimitParam,
    Predicate, RequestError, SearchReply, SearchRequest, SpatialFilter,
};
use autostac::query::SortOrder;
use autostac::stac::Item;
use autostac::time::Timestamp;
use geo::{Contains, Intersects};
use wkt::TryFromWkt;

const ONE: i64 = 1_000_000_000;

fn at(x: i64, y: i64) -> Coordinate {
    Coordinate { x, y }
}

fn square(min_x: i64, min_y: i64, max_x: i64, max_y: i64) -> Polygon {
    Polygon::rectangle(min_x * ONE, min_y * ONE, max_x * ONE, max_y * ONE)
}

fn record(name: &str, collection: &str, boundary: Polygon, x: u64, y: u64) -> ImageryFile {
    ImageryFile::new(
        format!("/data/{}/{}.tif", collection, name),
        name,
        collection,
        boundary,
        String::from("EPSG:4326"),
        Resolution { x, y },
        3,
        None,
        None,
        Timestamp::unknown(),
    )
    .unwrap()
}

/// "imagery" holds three records, two of which overlap the square from
/// (5, 5) to (15, 15); "dem" holds one.
fn service() -> Service {
    let mut imagery = ImageryCollection::new(String::from("imagery"), String::from("Imagery"), String::new());
    assert!(imagery.push(record("west", "imagery", square(0, 0, 10, 10), 30, 30)));
    assert!(imagery.push(record("far", "imagery", square(100, 40, 110, 50), 10, 10)));
    assert!(imagery.push(record("east", "imagery", square(12, 12, 20, 20), 20, 20)));
    let mut dem = ImageryCollection::new(String::from("dem"), String::from("Elevation"), String::new());
    assert!(dem.push(record("hills", "dem", square(0, 0, 1, 1), 5, 5)));
    let mut s = Service::new(
        String::from("autostac"),
        String::from("Autostac Demo"),
        String::new(),
        String::from("http://localhost:8000"),
    );
    assert!(s.insert(imagery));
    assert!(s.insert(dem));
    s
}

fn degrees(p: &Polygon) -> geo_types::Polygon<f64> {
    let ring: Vec<(f64, f64)> = p.exterior().iter().map(|c| (c.x as f64 / 1e9, c.y as f64 / 1e9)).collect();
    geo_types::Polygon::new(geo_types::LineString::from(ring), vec![])
}

fn kind_of(g: &geo_types::Geometry<f64>) -> GeometryKind {
    match g {
        geo_types::Geometry::Point(_) => GeometryKind::Point,
        geo_types::Geometry::Line(_) => GeometryKind::Line,
        geo_types::Geometry::LineString(_) => GeometryKind::LineString,
        geo_types::Geometry::Polygon(_) => GeometryKind::Polygon,
        geo_types::Geometry::MultiPoint(_) => GeometryKind::MultiPoint,
        geo_types::Geometry::MultiLineString(_) => GeometryKind::MultiLineString,
        geo_types::Geometry::MultiPolygon(_) => GeometryKind::MultiPolygon,
        geo_types::Geometry::GeometryCollection(_) => GeometryKind::GeometryCollection,
        geo_types::Geometry::Rect(_) => GeometryKind::Rect,
        geo_types::Geometry::Triangle(_) => GeometryKind::Triangle,
    }
}

/// Does what the program around the library does with a filter: reads the
/// shape and holds every footprint against it.
fn evaluate(records: &[&ImageryFile], filter: &SpatialFilter) -> Evaluation {
    let shape: geo_types::Geometry<f64> = match &filter.shape {
        FilterShape::Bounds(p) => geo_types::Geometry::Polygon(degrees(p)),
        FilterShape::Wkt(text) => match geo_types::Geometry::try_from_wkt_str(text) {
            Ok(g) => g,
            Err(_) => return Evaluation::Unparsable,
        },
    };
    let matches = records
        .iter()
        .map(|f| {
            let footprint = degrees(f.boundary());
            match (filter.predicate, &shape) {
                (Predicate::Intersects, g) => footprint.intersects(g),
                (Predicate::Contains, geo_types::Geometry::Polygon(p)) => footprint.contains(p),
                (Predicate::Contains, _) => false,
            }
        })
        .collect();
    Evaluation::Parsed { kind: kind_of(&shape), matches }
}

fn ids(items: &[Item]) -> Vec<&str> {
    items.iter().map(|i| i.id.as_str()).collect()
}

fn flags(matches: &[bool]) -> Evaluation {
    Evaluation::Parsed { kind: GeometryKind::Polygon, matches: matches.to_vec() }
}

fn request() -> SearchRequest {
    SearchRequest { bbox: None, intersects: None, contains: None, sortby: None, limit: None }
}

/// Asks for the records of "imagery" that meet a shape, with what the
/// evaluation of the shape gave.
fn filtered(
    s: &Service,
    predicate: Predicate,
    evaluation: &Evaluation,
    sortby: Option<&str>,
    limit: Option<usize>,
) -> Result<Vec<Item>, RequestError> {
    let (intersects, contains) = match predicate {
        Predicate::Intersects => (Some("the shape"), None),
        Predicate::Contains => (None, Some("the shape")),
    };
    match get_collection(String::from("imagery"), intersects, contains, sortby, limit, Some(evaluation), s) {
        CollectionReply::Items(items) => Ok(items),
        CollectionReply::Rejected(e) => Err(e),
        other => panic!("{:?}", other),
    }
}

fn found(reply: SearchReply) -> Result<Vec<Item>, RequestError> {
    match reply {
        SearchReply::Items(items) => Ok(items),
        SearchReply::Rejected(e) => Err(e),
        other => panic!("{:?}", other),
    }
}

#[test]
fn a_footprint_intersects_a_box_that_overlaps_it() {
    let f = record("a", "c", square(0, 0, 10, 10), 1, 1);
    let overlapping = SpatialFilter {
        predicate: Predicate::Intersects,
        shape: FilterShape::Bounds(bbox_to_bounds(&vec![5 * ONE, 5 * ONE, 15 * ONE, 15 * ONE]).unwrap()),
    };
    let e = evaluate(&[&f], &overlapping);
    assert_eq!(e, flags(&[true]));
    assert_eq!(ids(&search(&vec![&f], Some((Predicate::Intersects, &e)), None, None).unwrap()), vec!["a"]);
    let apart = SpatialFilter {
        predicate: Predicate::Intersects,
        shape: FilterShape::Bounds(bbox_to_bounds(&vec![20 * ONE, 20 * ONE, 30 * ONE, 30 * ONE]).unwrap()),
    };
    let e = evaluate(&[&f], &apart);
    assert_eq!(e, flags(&[false]));
    assert!(search(&vec![&f], Some((Predicate::Intersects, &e)), None, None).unwrap().is_empty());
}

#[test]
fn a_footprint_contains_a_polygon_that_lies_within_it() {
    let f = record("a", "c", square(0, 0, 10, 10), 1, 1);
    let within = SpatialFilter {
        predicate: Predicate::Contains,
        shape: FilterShape::Wkt(String::from("POLYGON ((2 2, 4 2, 4 4, 2 4, 2 2))")),
    };
    let e = evaluate(&[&f], &within);
    assert_eq!(e, flags(&[true]));
    assert_eq!(ids(&search(&vec![&f], Some((Predicate::Contains, &e)), None, None).unwrap()), vec!["a"]);
    let straddling = SpatialFilter {
        predicate: Predicate::Contains,
        shape: FilterShape::Wkt(String::from("POLYGON ((8 8, 12 8, 12 12, 8 12, 8 8))")),
    };
    let e = evaluate(&[&f], &straddling);
    assert_eq!(e, flags(&[false]));
    assert!(search(&vec![&f], Some((Predicate::Contains, &e)), None, None).unwrap().is_empty());
}

#[test]
fn a_sort_expression_names_the_field_with_or_without_a_sign() {
    assert_eq!(parse_sort("spatial_resolution"), Ok(SortOrder::Asc));
    assert_eq!(parse_sort("+spatial_resolution"), Ok(SortOrder::Asc));
    assert_eq!(parse_sort("-spatial_resolution"), Ok(SortOrder::Desc));
}

#[test]
fn a_name_without_a_sign_may_stand_between_white_space() {
    assert_eq!(parse_sort(" spatial_resolution"), Ok(SortOrder::Asc));
    assert_eq!(parse_sort("spatial_resolution \t\n"), Ok(SortOrder::Asc));
    assert_eq!(parse_sort("\u{a0}\u{3000} spatial_resolution\u{2028}\u{85}"), Ok(SortOrder::Asc));
    assert_eq!(parse_sort("-spatial_resolution "), Err(RequestError::UnsupportedSort));
    assert_eq!(parse_sort("+spatial_resolution "), Err(RequestError::UnsupportedSort));
    assert_eq!(parse_sort(" -spatial_resolution"), Err(RequestError::UnsupportedSort));
    assert_eq!(parse_sort("- spatial_resolution"), Err(RequestError::UnsupportedSort));
    assert_eq!(parse_sort("\u{200b}spatial_resolution"), Err(RequestError::UnsupportedSort));
}

#[test]
fn white_space_is_what_the_standard_library_trims() {
    for code in 0..0x3100u32 {
        if let Some(c) = char::from_u32(code) {
            let text = format!("{}spatial_resolution{}", c, c);
            assert_eq!(parse_sort(&text).is_ok(), c.is_whitespace(), "{:x}", code);
        }
    }
}

#[test]
fn any_other_field_is_not_sorted_by() {
    assert_eq!(parse_sort(""), Err(RequestError::UnsupportedSort));
    assert_eq!(parse_sort("-"), Err(RequestError::UnsupportedSort));
    assert_eq!(parse_sort("+"), Err(RequestError::UnsupportedSort));
    assert_eq!(parse_sort("datetime"), Err(RequestError::UnsupportedSort));
    assert_eq!(parse_sort("Spatial_Resolution"), Err(RequestError::UnsupportedSort));
    assert_eq!(parse_sort("spatial_resolutio"), Err(RequestError::UnsupportedSort));
    assert_eq!(parse_sort("spatial_resolutions"), Err(RequestError::UnsupportedSort));
    assert_eq!(parse_sort("--spatial_resolution"), Err(RequestError::UnsupportedSort));
    assert_eq!(parse_sort("+-spatial_resolution"), Err(RequestError::UnsupportedSort));
    assert_eq!(parse_sort("spatial resolution"), Err(RequestError::UnsupportedSort));
}

#[test]
fn a_bounding_box_is_four_numbers_in_order() {
    let p = bbox_to_bounds(&vec![1, 2, 3, 4]).unwrap();
    assert_eq!(p.exterior(), &vec![at(1, 2), at(3, 2), at(3, 4), at(1, 4), at(1, 2)]);
    assert_eq!(bbox_to_bounds(&vec![]), Err(RequestError::MalformedFilter));
    assert_eq!(bbox_to_bounds(&vec![1, 2, 3]), Err(RequestError::MalformedFilter));
    assert_eq!(bbox_to_bounds(&vec![1, 2, 3, 4, 5]), Err(RequestError::MalformedFilter));
    assert_eq!(bbox_to_bounds(&vec![3, 2, 3, 4]), Err(RequestError::MalformedFilter));
    assert_eq!(bbox_to_bounds(&vec![4, 2, 3, 4]), Err(RequestError::MalformedFilter));
    assert_eq!(bbox_to_bounds(&vec![1, 4, 3, 4]), Err(RequestError::MalformedFilter));
    assert_eq!(bbox_to_bounds(&vec![1, 5, 3, 4]), Err(RequestError::MalformedFilter));
    assert!(bbox_to_bounds(&vec![i64::MIN, i64::MIN, i64::MAX, i64::MAX]).is_ok());
}

#[test]
fn each_error_has_its_message() {
    assert_eq!(
        RequestError::ConflictingFilters.message(),
        "Use only one of: bbox, intersects or contains"
    );
    assert_eq!(
        RequestError::UnsupportedSort.message(),
        "sortby currently only supports `sortby=spatial_resolution`. Please file an issue to request sorting by more fields."
    );
    assert!(RequestError::MalformedFilter.message().starts_with("Invalid filter."));
}

#[test]
fn an_item_is_found_in_its_own_collection_only() {
    let s = service();
    let item = get_collection_item(String::from("dem"), String::from("hills"), &s).unwrap();
    assert_eq!(item.id, "hills");
    assert_eq!(item.collection, Some(String::from("dem")));
    assert!(get_collection_item(String::from("imagery"), String::from("hills"), &s).is_none());
    assert!(get_collection_item(String::from("dem"), String::from("west"), &s).is_none());
    assert!(get_collection_item(String::from("landuse"), String::from("hills"), &s).is_none());
    assert!(get_collection_item(String::from("imagery"), String::from("nothing"), &s).is_none());
}

#[test]
fn a_collection_that_is_not_there_is_not_found() {
    let s = service();
    assert_eq!(
        get_collection(String::from("landuse"), None, None, None, None, None, &s),
        CollectionReply::NotFound
    );
    assert_eq!(
        get_collection(
            String::from("landuse"),
            Some("POINT (1 1)"),
            Some("POINT (1 1)"),
            Some("nothing"),
            Some(0),
            Some(&Evaluation::Unparsable),
            &s
        ),
        CollectionReply::NotFound
    );
}

#[test]
fn a_collection_without_a_filter_is_answered_with_its_document() {
    let s = service();
    match get_collection(String::from("dem"), None, None, None, None, None, &s) {
        CollectionReply::Document(d) => {
            assert_eq!(d.id, "dem");
            assert_eq!(d.title, "Elevation");
            let hrefs: Vec<&str> = d.links.iter().map(|l| l.href.as_str()).collect();
            assert_eq!(
                hrefs,
                vec![
                    "http://localhost:8000/",
                    "http://localhost:8000/collections/dem/",
                    "http://localhost:8000/collections/dem/hills",
                ]
            );
        }
        other => panic!("{:?}", other),
    }
    let with_sort_and_limit =
        get_collection(String::from("dem"), None, None, Some("nothing"), Some(0), Some(&flags(&[])), &s);
    assert!(matches!(with_sort_and_limit, CollectionReply::Document(_)));
}

#[test]
fn a_collection_that_cannot_be_addressed_has_no_document() {
    let mut s = Service::new(String::new(), String::new(), String::new(), String::from("./data"));
    assert!(s.insert(ImageryCollection::new(String::from("dem"), String::new(), String::new())));
    assert_eq!(
        get_collection(String::from("dem"), None, None, None, None, None, &s),
        CollectionReply::Unaddressable
    );
}

#[test]
fn two_filters_are_a_conflict() {
    let s = service();
    let wkt = "POLYGON ((5 5, 15 5, 15 15, 5 15, 5 5))";
    assert_eq!(
        get_collection(String::from("imagery"), Some(wkt), Some(wkt), None, None, None, &s),
        CollectionReply::Rejected(RequestError::ConflictingFilters)
    );
    assert_eq!(
        get_collection(
            String::from("imagery"),
            Some(wkt),
            Some(wkt),
            Some("spatial_resolution"),
            Some(2),
            Some(&flags(&[true, true, true])),
            &s
        ),
        CollectionReply::Rejected(RequestError::ConflictingFilters)
    );
    assert_eq!(
        get_collection(String::from("imagery"), Some("no shape"), Some(""), Some("nothing"), None, None, &s),
        CollectionReply::Rejected(RequestError::ConflictingFilters)
    );
}

#[test]
fn one_filter_is_to_be_evaluated() {
    let s = service();
    assert_eq!(
        get_collection(String::from("imagery"), Some("POINT (1 1)"), None, None, None, None, &s),
        CollectionReply::Evaluate(SpatialFilter {
            predicate: Predicate::Intersects,
            shape: FilterShape::Wkt(String::from("POINT (1 1)")),
        })
    );
    assert_eq!(
        get_collection(String::from("imagery"), None, Some("what"), Some("nothing"), Some(1), None, &s),
        CollectionReply::Evaluate(SpatialFilter {
            predicate: Predicate::Contains,
            shape: FilterShape::Wkt(String::from("what")),
        })
    );
}

#[test]
fn a_filtered_collection_is_answered_with_the_items_that_match() {
    let s = service();
    let wkt = "POLYGON ((5 5, 15 5, 15 15, 5 15, 5 5))";
    let filter = match get_collection(String::from("imagery"), Some(wkt), None, None, None, None, &s) {
        CollectionReply::Evaluate(f) => f,
        other => panic!("{:?}", other),
    };
    let collection = s.get("imagery").unwrap();
    let records: Vec<&ImageryFile> = collection.all().iter().collect();
    let evaluation = evaluate(&records, &filter);
    assert_eq!(evaluation, flags(&[true, false, true]));
    let items = match get_collection(String::from("imagery"), Some(wkt), None, None, None, Some(&evaluation), &s) {
        CollectionReply::Items(items) => items,
        other => panic!("{:?}", other),
    };
    assert_eq!(items.len(), 2);
    assert_eq!(ids(&items), vec!["west", "east"]);
    assert_eq!(items[0].collection, Some(String::from("imagery")));
    assert_eq!(items[0].bbox, vec![0, 0, 10 * ONE, 10 * ONE]);
    assert!(matches!(
        get_collection(String::from("dem"), None, None, None, None, None, &s),
        CollectionReply::Document(_)
    ));
}

#[test]
fn a_point_and_a_line_can_be_intersected() {
    let s = service();
    let collection = s.get("imagery").unwrap();
    let records: Vec<&ImageryFile> = collection.all().iter().collect();
    let point = SpatialFilter {
        predicate: Predicate::Intersects,
        shape: FilterShape::Wkt(String::from("POINT (105 45)")),
    };
    let e = evaluate(&records, &point);
    assert_eq!(e, Evaluation::Parsed { kind: GeometryKind::Point, matches: vec![false, true, false] });
    assert_eq!(ids(&filtered(&s, Predicate::Intersects, &e, None, None).unwrap()), vec!["far"]);
    let line = SpatialFilter {
        predicate: Predicate::Intersects,
        shape: FilterShape::Wkt(String::from("LINESTRING (-5 5, 25 18)")),
    };
    let e = evaluate(&records, &line);
    assert_eq!(e, Evaluation::Parsed { kind: GeometryKind::LineString, matches: vec![true, false, true] });
    assert_eq!(ids(&filtered(&s, Predicate::Intersects, &e, None, None).unwrap()), vec!["west", "east"]);
}

#[test]
fn only_a_polygon_can_be_contained() {
    let s = service();
    let collection = s.get("imagery").unwrap();
    let records: Vec<&ImageryFile> = collection.all().iter().collect();
    let point = SpatialFilter {
        predicate: Predicate::Contains,
        shape: FilterShape::Wkt(String::from("POINT (5 5)")),
    };
    let e = evaluate(&records, &point);
    assert_eq!(filtered(&s, Predicate::Contains, &e, None, None), Err(RequestError::MalformedFilter));
    for kind in [
        GeometryKind::Point,
        GeometryKind::Line,
        GeometryKind::LineString,
        GeometryKind::MultiPoint,
        GeometryKind::MultiLineString,
        GeometryKind::MultiPolygon,
        GeometryKind::GeometryCollection,
        GeometryKind::Rect,
        GeometryKind::Triangle,
    ] {
        let e = Evaluation::Parsed { kind, matches: vec![true, true, true] };
        assert_eq!(filtered(&s, Predicate::Contains, &e, None, None), Err(RequestError::MalformedFilter));
        assert_eq!(filtered(&s, Predicate::Intersects, &e, None, None).unwrap().len(), 3);
    }
    let polygon = Evaluation::Parsed { kind: GeometryKind::Polygon, matches: vec![true, true, true] };
    assert_eq!(filtered(&s, Predicate::Contains, &polygon, None, None).unwrap().len(), 3);
}

#[test]
fn text_that_is_no_shape_is_a_malformed_filter() {
    let s = service();
    let collection = s.get("imagery").unwrap();
    let records: Vec<&ImageryFile> = collection.all().iter().collect();
    let filter = SpatialFilter {
        predicate: Predicate::Intersects,
        shape: FilterShape::Wkt(String::from("POLYGON ((5 5, 15 5")),
    };
    let e = evaluate(&records, &filter);
    assert_eq!(e, Evaluation::Unparsable);
    assert_eq!(filtered(&s, Predicate::Intersects, &e, None, None), Err(RequestError::MalformedFilter));
    assert_eq!(
        filtered(&s, Predicate::Intersects, &e, Some("nothing"), Some(0)),
        Err(RequestError::MalformedFilter)
    );
}

#[test]
fn a_sort_by_another_field_is_turned_down_after_the_filter() {
    let s = service();
    let all = flags(&[true, true, true]);
    assert_eq!(
        filtered(&s, Predicate::Intersects, &all, Some("datetime"), None),
        Err(RequestError::UnsupportedSort)
    );
    assert_eq!(
        filtered(&s, Predicate::Intersects, &all, Some("datetime"), Some(0)),
        Err(RequestError::UnsupportedSort)
    );
}

#[test]
fn items_are_sorted_by_their_mean_pixel_size() {
    let s = service();
    let all = flags(&[true, true, true]);
    let up = filtered(&s, Predicate::Intersects, &all, Some("spatial_resolution"), None).unwrap();
    assert_eq!(ids(&up), vec!["far", "east", "west"]);
    let also_up = filtered(&s, Predicate::Intersects, &all, Some("+spatial_resolution"), None).unwrap();
    assert_eq!(up, also_up);
    let down = filtered(&s, Predicate::Intersects, &all, Some("-spatial_resolution"), None).unwrap();
    assert_eq!(ids(&down), vec!["west", "east", "far"]);
    let mut reversed = down.clone();
    reversed.reverse();
    assert_eq!(up, reversed);
    let unsorted = filtered(&s, Predicate::Intersects, &all, None, None).unwrap();
    assert_eq!(ids(&unsorted), vec!["west", "far", "east"]);
}

#[test]
fn items_of_one_pixel_size_stay_in_their_order() {
    let p = record("p", "c", square(0, 0, 1, 1), 7, 7);
    let q = record("q", "c", square(0, 0, 1, 1), 2, 2);
    let r = record("r", "c", square(0, 0, 1, 1), 6, 8);
    let t = record("t", "c", square(0, 0, 1, 1), 2, 3);
    let records = vec![&p, &q, &r, &t];
    let up = search(&records, None, Some("spatial_resolution"), None).unwrap();
    assert_eq!(ids(&up), vec!["q", "t", "p", "r"]);
    let down = search(&records, None, Some("-spatial_resolution"), None).unwrap();
    assert_eq!(ids(&down), vec!["p", "r", "q", "t"]);
}

#[test]
fn items_are_cut_to_the_limit_after_sorting() {
    let s = service();
    let all = flags(&[true, true, true]);
    let sort = Some("-spatial_resolution");
    let cut = |n: usize| {
        let items = filtered(&s, Predicate::Intersects, &all, sort, Some(n)).unwrap();
        items.into_iter().map(|i| i.id).collect::<Vec<String>>()
    };
    assert_eq!(cut(0), Vec::<String>::new());
    assert_eq!(cut(1), vec!["west"]);
    assert_eq!(cut(2), vec!["west", "east"]);
    assert_eq!(cut(3), vec!["west", "east", "far"]);
    assert_eq!(cut(4), vec!["west", "east", "far"]);
    assert_eq!(cut(usize::MAX), vec!["west", "east", "far"]);
    let some = flags(&[false, true, true]);
    let items = filtered(&s, Predicate::Intersects, &some, None, Some(1)).unwrap();
    assert_eq!(ids(&items), vec!["far"]);
}

#[test]
fn records_without_a_flag_are_left_out() {
    let s = service();
    let items = filtered(&s, Predicate::Intersects, &flags(&[true]), None, None).unwrap();
    assert_eq!(ids(&items), vec!["west"]);
    let items = filtered(&s, Predicate::Intersects, &flags(&[]), None, None).unwrap();
    assert!(items.is_empty());
    let items =
        filtered(&s, Predicate::Intersects, &flags(&[false, true, true, true, true]), None, None).unwrap();
    assert_eq!(ids(&items), vec!["far", "east"]);
}

#[test]
fn a_search_with_more_than_one_filter_is_a_conflict() {
    let s = service();
    let text = Some(String::from("POINT (1 1)"));
    let bbox = Some(vec![0, 0, 1, 1]);
    let conflict = SearchReply::Rejected(RequestError::ConflictingFilters);
    let both = SearchRequest { intersects: text.clone(), contains: text.clone(), ..request() };
    assert_eq!(search_all_collections(&both, None, &s), conflict);
    assert_eq!(search_all_collections(&both, Some(&flags(&[true, true, true, true])), &s), conflict);
    let boxed = SearchRequest { intersects: text.clone(), bbox: bbox.clone(), ..request() };
    assert_eq!(search_all_collections(&boxed, None, &s), conflict);
    let boxed = SearchRequest { contains: text.clone(), bbox: Some(vec![]), ..request() };
    assert_eq!(search_all_collections(&boxed, None, &s), conflict);
    let all = SearchRequest {
        intersects: text.clone(),
        contains: text,
        bbox,
        sortby: Some(String::from("nothing")),
        ..request()
    };
    assert_eq!(search_all_collections(&all, None, &s), conflict);
}

#[test]
fn a_search_says_what_is_to_be_evaluated() {
    let s = service();
    let boxed = SearchRequest { bbox: Some(vec![1, 2, 3, 4]), ..request() };
    assert_eq!(
        search_all_collections(&boxed, None, &s),
        SearchReply::Evaluate(SpatialFilter {
            predicate: Predicate::Intersects,
            shape: FilterShape::Bounds(Polygon::rectangle(1, 2, 3, 4)),
        })
    );
    let unboxed = SearchRequest { bbox: Some(vec![1, 2, 1, 4]), ..request() };
    assert_eq!(search_all_collections(&unboxed, None, &s), SearchReply::Rejected(RequestError::MalformedFilter));
    assert_eq!(
        search_all_collections(&unboxed, Some(&flags(&[true])), &s),
        SearchReply::Rejected(RequestError::MalformedFilter)
    );
    let meets = SearchRequest {
        intersects: Some(String::from("POINT (1 1)")),
        sortby: Some(String::from("nothing")),
        ..request()
    };
    assert_eq!(
        search_all_collections(&meets, None, &s),
        SearchReply::Evaluate(SpatialFilter {
            predicate: Predicate::Intersects,
            shape: FilterShape::Wkt(String::from("POINT (1 1)")),
        })
    );
    let holds = SearchRequest { contains: Some(String::from("x")), ..request() };
    assert_eq!(
        search_all_collections(&holds, None, &s),
        SearchReply::Evaluate(SpatialFilter {
            predicate: Predicate::Contains,
            shape: FilterShape::Wkt(String::from("x")),
        })
    );
}

#[test]
fn a_search_without_a_filter_finds_every_record() {
    let s = service();
    let items = found(search_all_collections(&request(), None, &s)).unwrap();
    assert_eq!(ids(&items), vec!["west", "far", "east", "hills"]);
    let items =
        found(search_all_collections(&request(), Some(&flags(&[false, false, false, false])), &s)).unwrap();
    assert_eq!(items.len(), 4);
    let items = found(search_all_collections(&request(), Some(&Evaluation::Unparsable), &s)).unwrap();
    assert_eq!(items.len(), 4);
    let sorted = SearchRequest {
        sortby: Some(String::from("-spatial_resolution")),
        limit: Some(LimitParam::Text(String::from("3"))),
        ..request()
    };
    assert_eq!(ids(&found(search_all_collections(&sorted, None, &s)).unwrap()), vec!["west", "east", "far"]);
    let unsorted = SearchRequest { sortby: Some(String::from("nothing")), ..request() };
    assert_eq!(found(search_all_collections(&unsorted, None, &s)), Err(RequestError::UnsupportedSort));
}

#[test]
fn a_search_by_bounding_box_finds_what_the_box_intersects() {
    let s = service();
    let boxed = SearchRequest {
        bbox: Some(vec![-ONE, -ONE, 13 * ONE, 13 * ONE]),
        sortby: Some(String::from("spatial_resolution")),
        ..request()
    };
    let filter = match search_all_collections(&boxed, None, &s) {
        SearchReply::Evaluate(f) => f,
        other => panic!("{:?}", other),
    };
    let images = s.all_images();
    let evaluation = evaluate(&images, &filter);
    assert_eq!(evaluation, flags(&[true, false, true, true]));
    let items = found(search_all_collections(&boxed, Some(&evaluation), &s)).unwrap();
    assert_eq!(ids(&items), vec!["hills", "east", "west"]);
}

#[test]
fn a_search_goes_by_what_the_evaluation_gave() {
    let s = service();
    let meets = SearchRequest { intersects: Some(String::from("POINT (1 1)")), ..request() };
    assert_eq!(
        found(search_all_collections(&meets, Some(&Evaluation::Unparsable), &s)),
        Err(RequestError::MalformedFilter)
    );
    let holds = SearchRequest { contains: Some(String::from("POINT (1 1)")), ..request() };
    let point = Evaluation::Parsed { kind: GeometryKind::Point, matches: vec![true, true, true, true] };
    assert_eq!(found(search_all_collections(&holds, Some(&point), &s)), Err(RequestError::MalformedFilter));
    assert_eq!(found(search_all_collections(&meets, Some(&point), &s)).unwrap().len(), 4);
    let unsorted = SearchRequest {
        contains: Some(String::from("POINT (1 1)")),
        sortby: Some(String::from("nothing")),
        ..request()
    };
    assert_eq!(found(search_all_collections(&unsorted, Some(&point), &s)), Err(RequestError::MalformedFilter));
    assert_eq!(
        found(search_all_collections(&unsorted, Some(&flags(&[true])), &s)),
        Err(RequestError::UnsupportedSort)
    );
}

#[test]
fn a_limit_is_a_count_or_text_that_writes_one() {
    assert_eq!(limit_of(&None), None);
    assert_eq!(limit_of(&Some(LimitParam::Other)), None);
    assert_eq!(limit_of(&Some(LimitParam::Count(0))), Some(0));
    assert_eq!(limit_of(&Some(LimitParam::Count(u64::MAX))), Some(u64::MAX));
    let text = |t: &str| limit_of(&Some(LimitParam::Text(String::from(t))));
    assert_eq!(text("20"), Some(20));
    assert_eq!(text("+20"), Some(20));
    assert_eq!(text("0"), Some(0));
    assert_eq!(text("007"), Some(7));
    assert_eq!(text("18446744073709551615"), Some(u64::MAX));
    assert_eq!(text("018446744073709551615"), Some(u64::MAX));
    assert_eq!(text("18446744073709551616"), None);
    assert_eq!(text("99999999999999999999999"), None);
    assert_eq!(text(""), None);
    assert_eq!(text("+"), None);
    assert_eq!(text("-"), None);
    assert_eq!(text("-1"), None);
    assert_eq!(text("++1"), None);
    assert_eq!(text(" 1"), None);
    assert_eq!(text("1 "), None);
    assert_eq!(text("1.0"), None);
    assert_eq!(text("1e3"), None);
    assert_eq!(text("twenty"), None);
    assert_eq!(text("\u{663}"), None);
    for t in ["20", "+20", "0", "007", "18446744073709551615", "18446744073709551616", "", "+", "-1", " 1", "1.0"] {
        assert_eq!(text(t), t.parse::<u64>().ok());
    }
}

#[test]
fn a_search_is_cut_to_its_limit() {
    let s = service();
    let cut = |limit: LimitParam| {
        let r = SearchRequest { limit: Some(limit), ..request() };
        found(search_all_collections(&r, None, &s)).unwrap().into_iter().map(|i| i.id).collect::<Vec<String>>()
    };
    assert_eq!(cut(LimitParam::Count(2)), vec!["west", "far"]);
    assert_eq!(cut(LimitParam::Count(0)), Vec::<String>::new());
    assert_eq!(cut(LimitParam::Count(u64::MAX)).len(), 4);
    assert_eq!(cut(LimitParam::Text(String::from("1"))), vec!["west"]);
    assert_eq!(cut(LimitParam::Text(String::from("many"))).len(), 4);
    assert_eq!(cut(LimitParam::Other).len(), 4);
}

#[test]
fn the_landing_page_is_that_of_the_service() {
    let s = service();
    assert_eq!(landing(&s), s.stac_landing());
    assert_eq!(landing(&s).unwrap().links.len(), 4);
}
