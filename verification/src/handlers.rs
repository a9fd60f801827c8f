//! What the service answers to each request of the catalog protocol.
//!
//! Whether a footprint meets a shape is decided outside this library, on
//! geometry read from the request's text. A request that filters is asked
//! twice therefore: the first answer says what is to be evaluated, and the
//! request is then asked again together with what the evaluation gave.

use vstd::prelude::*;
use vstd::string::*;
use crate::catalog::{
    all_records, collection_document, collection_resolves, find_item, find_store, item_models,
    item_of, items_of, models_of, record_names, resolution_keys, resolution_keys_of,
    AsFeatureCollection, ImageryFile, RecordModel, Service,
};
use crate::geometry::{rectangle_ring, twice_signed_area, Coordinate, Polygon};
use crate::query::{query, query_result, query_result_commutes, refs_of, SortOrder};
use crate::stac::{slice_text, text_of, Collection, Item, ItemModel, LandingPage};
use crate::text::{chars_of, count_of, parse_count, same_text, slice_of, trim, trimmed};

verus! {

/// Why a request is turned down.
#[derive(Clone, Copy, Debug, PartialEq, Eq, Structural)]
pub enum RequestError {
    /// The shape to filter by cannot be read, or is of a kind that the
    /// filter does not take.
    MalformedFilter,
    /// The records are to be sorted by a field that they are not sorted by.
    UnsupportedSort,
    /// More than one filter is given.
    ConflictingFilters,
}

/// What a caller is told of a request that is turned down.
pub open spec fn error_text(e: RequestError) -> Seq<char> {
    match e {
        RequestError::MalformedFilter => "Invalid filter. Give `intersects` or `contains` as well-known text, for example POLYGON ((30 10, 40 40, 20 40, 10 20, 30 10)), and `bbox` as bbox=minx,miny,maxx,maxy"@,
        RequestError::UnsupportedSort => "sortby currently only supports `sortby=spatial_resolution`. Please file an issue to request sorting by more fields."@,
        RequestError::ConflictingFilters => "Use only one of: bbox, intersects or contains"@,
    }
}

impl RequestError {
    /// What a caller is told of the request.
    pub fn message(&self) -> (r: String)
        ensures
            r@ == error_text(*self),
    {
        match self {
            RequestError::MalformedFilter => String::from_str(
                "Invalid filter. Give `intersects` or `contains` as well-known text, for example POLYGON ((30 10, 40 40, 20 40, 10 20, 30 10)), and `bbox` as bbox=minx,miny,maxx,maxy",
            ),
            RequestError::UnsupportedSort => String::from_str(
                "sortby currently only supports `sortby=spatial_resolution`. Please file an issue to request sorting by more fields.",
            ),
            RequestError::ConflictingFilters => String::from_str(
                "Use only one of: bbox, intersects or contains",
            ),
        }
    }
}

/// The one field that records are sorted by.
pub open spec fn sort_field() -> Seq<char> {
    "spatial_resolution"@
}

/// The direction that the sort expression `s` asks for, if it names the
/// sort field: a `-` before the name asks for the largest first, a `+` or
/// nothing for the smallest first. Only a name without a sign may stand
/// between white space.
pub open spec fn sort_order_of(s: Seq<char>) -> Option<SortOrder> {
    if s.len() > 0 && s[0] == '-' {
        if s.drop_first() == sort_field() {
            Some(SortOrder::Desc)
        } else {
            None
        }
    } else if s.len() > 0 && s[0] == '+' {
        if s.drop_first() == sort_field() {
            Some(SortOrder::Asc)
        } else {
            None
        }
    } else if trimmed(s) == sort_field() {
        Some(SortOrder::Asc)
    } else {
        None
    }
}

/// Reads a sort expression.
pub fn parse_sort(sortby: &str) -> (r: Result<SortOrder, RequestError>)
    ensures
        r == match sort_order_of(sortby@) {
            Some(order) => Ok::<SortOrder, RequestError>(order),
            None => Err(RequestError::UnsupportedSort),
        },
{
    let s = chars_of(sortby);
    let field = chars_of("spatial_resolution");
    let n = s.len();
    let (order, key) = if n > 0 && s[0] == '-' {
        (SortOrder::Desc, slice_of(&s, 1, n))
    } else if n > 0 && s[0] == '+' {
        (SortOrder::Asc, slice_of(&s, 1, n))
    } else {
        (SortOrder::Asc, trim(&s))
    };
    if same_text(&key, &field) {
        Ok(order)
    } else {
        Err(RequestError::UnsupportedSort)
    }
}

/// Whether four numbers are a bounding box: the least x and y, then the
/// greatest, the least less than the greatest on both axes.
pub open spec fn is_bbox(bbox: Seq<i64>) -> bool {
    bbox.len() == 4 && bbox[0] < bbox[2] && bbox[1] < bbox[3]
}

/// The rectangle that a bounding box stands for, walked counter-clockwise
/// from its lower left corner.
pub fn bbox_to_bounds(bbox: &Vec<i64>) -> (r: Result<Polygon, RequestError>)
    ensures
        match r {
            Ok(p) => is_bbox(bbox@) && p@ == rectangle_ring(bbox[0], bbox[1], bbox[2], bbox[3])
                && twice_signed_area(p@) > 0,
            Err(e) => !is_bbox(bbox@) && e == RequestError::MalformedFilter,
        },
{
    if bbox.len() != 4 || bbox[0] >= bbox[2] || bbox[1] >= bbox[3] {
        return Err(RequestError::MalformedFilter);
    }
    Ok(Polygon::rectangle_from(bbox[0], bbox[1], bbox[2], bbox[3]))
}

/// What a filter asks of a footprint.
#[derive(Clone, Copy, Debug, PartialEq, Eq, Structural)]
pub enum Predicate {
    /// The footprint shares a point with the shape.
    Intersects,
    /// The shape lies within the footprint.
    Contains,
}

/// The kinds of geometry that the text of a filter can write.
#[derive(Clone, Copy, Debug, PartialEq, Eq, Structural)]
pub enum GeometryKind {
    Point,
    Line,
    LineString,
    Polygon,
    MultiPoint,
    MultiLineString,
    MultiPolygon,
    GeometryCollection,
    Rect,
    Triangle,
}

/// The shape of a filter.
#[derive(Debug, PartialEq, Eq)]
pub enum FilterShape {
    /// A shape written as well-known text, still to be read.
    Wkt(String),
    /// The rectangle of a bounding box.
    Bounds(Polygon),
}

/// What the shape of a filter says.
pub enum ShapeModel {
    Wkt(Seq<char>),
    Bounds(Seq<Coordinate>),
}

impl View for FilterShape {
    type V = ShapeModel;

    open spec fn view(&self) -> ShapeModel {
        match self {
            FilterShape::Wkt(text) => ShapeModel::Wkt(text@),
            FilterShape::Bounds(p) => ShapeModel::Bounds(p@),
        }
    }
}

/// A filter to be evaluated: every record's footprint against one shape.
#[derive(Debug, PartialEq, Eq)]
pub struct SpatialFilter {
    pub predicate: Predicate,
    pub shape: FilterShape,
}

/// What the evaluation of a filter gave.
#[derive(Debug, PartialEq, Eq)]
pub enum Evaluation {
    /// The text of the shape could not be read.
    Unparsable,
    /// The shape was read as one of `kind`; `matches` holds, for each
    /// record in turn, whether its footprint meets the shape.
    Parsed { kind: GeometryKind, matches: Vec<bool> },
}

/// What an evaluation says.
pub enum EvaluationModel {
    Unparsable,
    Parsed { kind: GeometryKind, matches: Seq<bool> },
}

impl View for Evaluation {
    type V = EvaluationModel;

    open spec fn view(&self) -> EvaluationModel {
        match self {
            Evaluation::Unparsable => EvaluationModel::Unparsable,
            Evaluation::Parsed { kind, matches } => EvaluationModel::Parsed {
                kind: *kind,
                matches: matches@,
            },
        }
    }
}

/// The flags that a filter goes by, where its shape was read and is of a
/// kind that the filter takes: whether a footprint contains a shape is only
/// asked of polygons.
pub open spec fn accepted_matches(predicate: Predicate, evaluation: EvaluationModel) -> Option<
    Seq<bool>,
> {
    match evaluation {
        EvaluationModel::Unparsable => None,
        EvaluationModel::Parsed { kind, matches } => if predicate == Predicate::Contains && kind
            != GeometryKind::Polygon {
            None
        } else {
            Some(matches)
        },
    }
}

/// The answer to a search among `records`: a filter whose shape cannot be
/// gone by is turned down first, then a sort by anything but the sort
/// field; what is left is filtered, sorted and cut, and handed out as
/// items.
pub open spec fn search_answer(
    records: Seq<RecordModel>,
    filter: Option<(Predicate, EvaluationModel)>,
    sortby: Option<Seq<char>>,
    limit: Option<u64>,
) -> Result<Seq<ItemModel>, RequestError> {
    let matches = match filter {
        Some((predicate, evaluation)) => accepted_matches(predicate, evaluation),
        None => None,
    };
    let order = match sortby {
        Some(s) => sort_order_of(s),
        None => None,
    };
    if filter is Some && matches is None {
        Err(RequestError::MalformedFilter)
    } else if sortby is Some && order is None {
        Err(RequestError::UnsupportedSort)
    } else {
        Ok(items_of(query_result(records, resolution_keys(records), matches, order, limit)))
    }
}

/// What a filter with its evaluation says.
pub open spec fn filter_model(filter: Option<(Predicate, &Evaluation)>) -> Option<
    (Predicate, EvaluationModel),
> {
    match filter {
        Some((predicate, evaluation)) => Some((predicate, evaluation@)),
        None => None,
    }
}

/// Whether `reply` answers a search among `records`, given what the
/// evaluation of its filter gave.
pub open spec fn is_search_reply(
    records: Seq<RecordModel>,
    filter: Option<(Predicate, EvaluationModel)>,
    sortby: Option<Seq<char>>,
    limit: Option<u64>,
    reply: Result<Vec<Item>, RequestError>,
) -> bool {
    match search_answer(records, filter, sortby, limit) {
        Ok(items) => reply matches Ok(found) && item_models(found@) == items,
        Err(e) => reply == Err::<Vec<Item>, RequestError>(e),
    }
}

/// Answers a search among `records`, given what the evaluation of its
/// filter gave, if it has one.
pub fn search(
    records: &Vec<&ImageryFile>,
    filter: Option<(Predicate, &Evaluation)>,
    sortby: Option<&str>,
    limit: Option<u64>,
) -> (r: Result<Vec<Item>, RequestError>)
    ensures
        is_search_reply(models_of(records@), filter_model(filter), slice_text(sortby), limit, r),
{
    let matches: Option<&Vec<bool>> = match filter {
        Some((predicate, evaluation)) => match evaluation {
            Evaluation::Unparsable => {
                return Err(RequestError::MalformedFilter);
            },
            Evaluation::Parsed { kind, matches } => {
                if predicate == Predicate::Contains && *kind != GeometryKind::Polygon {
                    return Err(RequestError::MalformedFilter);
                }
                Some(matches)
            },
        },
        None => None,
    };
    let order: Option<SortOrder> = match sortby {
        Some(s) => match parse_sort(s) {
            Ok(order) => Some(order),
            Err(e) => {
                return Err(e);
            },
        },
        None => None,
    };
    let keys = resolution_keys_of(records);
    let found = query(records, &keys, matches, order, limit);
    proof {
        let flags = match matches {
            Some(m) => Some(m@),
            None => None,
        };
        query_result_commutes(records@, keys@, flags, order, limit, |f: &ImageryFile| f@);
    }
    let items = found.as_feature_collection();
    Ok(items)
}

/// The item that stands for the record `item_id` of the collection
/// `collection_id`, or nothing where the service has no such collection or
/// the collection no such record.
pub fn get_collection_item(collection_id: String, item_id: String, coverage: &Service) -> (r:
    Option<Item>)
    ensures
        match find_item(coverage@, collection_id@, item_id@) {
            Some(record) => r is Some && r->Some_0@ == item_of(record),
            None => r is None,
        },
{
    let collection = match coverage.get(collection_id.as_str()) {
        Some(c) => c,
        None => {
            return None;
        },
    };
    let item = match collection.get_item(item_id) {
        Some(i) => i,
        None => {
            return None;
        },
    };
    Some(item.to_stac_feature())
}

/// The answer to a request for a collection.
#[derive(Debug, PartialEq, Eq)]
pub enum CollectionReply {
    /// The service has no such collection.
    NotFound,
    /// No filter is given: the answer is the document of the collection.
    Document(Collection),
    /// No filter is given, but an address of the document does not resolve.
    Unaddressable,
    /// The request is turned down.
    Rejected(RequestError),
    /// The filter is to be evaluated against every record of the
    /// collection, in their order, and the request asked again with what
    /// the evaluation gave.
    Evaluate(SpatialFilter),
    /// The items of the records that the filter keeps, sorted and cut as
    /// asked.
    Items(Vec<Item>),
}

/// A count as a limit, where one is given.
pub open spec fn count_as_limit(limit: Option<usize>) -> Option<u64> {
    match limit {
        Some(n) => Some(n as u64),
        None => None,
    }
}

/// Whether `reply` answers a request for the collection `collection_id` of
/// `service`, with the filters, sort and limit that it may give, and with
/// what the evaluation of its filter gave, where it was evaluated yet.
pub open spec fn is_collection_reply(
    service: crate::catalog::ServiceModel,
    collection_id: Seq<char>,
    intersects: Option<Seq<char>>,
    contains: Option<Seq<char>>,
    sortby: Option<Seq<char>>,
    limit: Option<u64>,
    evaluation: Option<EvaluationModel>,
    reply: CollectionReply,
) -> bool {
    match find_store(service.collections, collection_id) {
        None => reply is NotFound,
        Some(c) => match (intersects, contains) {
            (None, None) => if collection_resolves(service.base_url, c.id, record_names(c.records)) {
                reply matches CollectionReply::Document(d) && d@ == collection_document(
                    c,
                    service.base_url,
                )
            } else {
                reply is Unaddressable
            },
            (Some(_), Some(_)) => reply matches CollectionReply::Rejected(e) && e
                == RequestError::ConflictingFilters,
            (Some(text), None) => is_filtered_reply(
                c.records,
                Predicate::Intersects,
                text,
                sortby,
                limit,
                evaluation,
                reply,
            ),
            (None, Some(text)) => is_filtered_reply(
                c.records,
                Predicate::Contains,
                text,
                sortby,
                limit,
                evaluation,
                reply,
            ),
        },
    }
}

/// Whether `reply` answers a request for the records of a collection that
/// meet the shape written in `text`: before the evaluation it asks for it,
/// after it it holds the items found, or turns the request down.
pub open spec fn is_filtered_reply(
    records: Seq<RecordModel>,
    predicate: Predicate,
    text: Seq<char>,
    sortby: Option<Seq<char>>,
    limit: Option<u64>,
    evaluation: Option<EvaluationModel>,
    reply: CollectionReply,
) -> bool {
    match evaluation {
        None => reply matches CollectionReply::Evaluate(f) && f.predicate == predicate && f.shape@
            == ShapeModel::Wkt(text),
        Some(e) => match search_answer(records, Some((predicate, e)), sortby, limit) {
            Ok(items) => reply matches CollectionReply::Items(found) && item_models(found@)
                == items,
            Err(e) => reply matches CollectionReply::Rejected(f) && f == e,
        },
    }
}

/// What an optional evaluation says.
pub open spec fn evaluation_model(evaluation: Option<&Evaluation>) -> Option<EvaluationModel> {
    match evaluation {
        Some(e) => Some(e@),
        None => None,
    }
}

/// Answers a request for a collection: without a filter with the document
/// of the collection; with one filter with what is to be evaluated, and,
/// asked again with what the evaluation gave, with the items found. Two
/// filters are never merged: the request is turned down.
pub fn get_collection(
    collection_id: String,
    intersects: Option<&str>,
    contains: Option<&str>,
    sortby: Option<&str>,
    limit: Option<usize>,
    evaluation: Option<&Evaluation>,
    coverage: &Service,
) -> (r: CollectionReply)
    ensures
        is_collection_reply(
            coverage@,
            collection_id@,
            slice_text(intersects),
            slice_text(contains),
            slice_text(sortby),
            count_as_limit(limit),
            evaluation_model(evaluation),
            r,
        ),
        find_store(coverage@.collections, collection_id@) is Some && intersects is Some
            && contains is Some ==> (r matches CollectionReply::Rejected(e) && e
            == RequestError::ConflictingFilters),
{
    let collection = match coverage.get(collection_id.as_str()) {
        Some(c) => c,
        None => {
            return CollectionReply::NotFound;
        },
    };
    let (predicate, text) = match (intersects, contains) {
        (None, None) => {
            return match collection.stac_collection(coverage.base_url().as_str()) {
                Some(document) => CollectionReply::Document(document),
                None => CollectionReply::Unaddressable,
            };
        },
        (Some(_), Some(_)) => {
            return CollectionReply::Rejected(RequestError::ConflictingFilters);
        },
        (Some(text), None) => (Predicate::Intersects, text),
        (None, Some(text)) => (Predicate::Contains, text),
    };
    let evaluation = match evaluation {
        Some(e) => e,
        None => {
            return CollectionReply::Evaluate(
                SpatialFilter { predicate, shape: FilterShape::Wkt(String::from_str(text)) },
            );
        },
    };
    let files = collection.all();
    let records = refs_of(files);
    proof {
        assert(models_of(records@) =~= collection@.records);
    }
    let limit: Option<u64> = match limit {
        Some(n) => Some(n as u64),
        None => None,
    };
    match search(&records, Some((predicate, evaluation)), sortby, limit) {
        Ok(items) => CollectionReply::Items(items),
        Err(e) => CollectionReply::Rejected(e),
    }
}

/// The limit of a search as the request gives it.
#[derive(Debug, PartialEq, Eq)]
pub enum LimitParam {
    /// A number that is a count.
    Count(u64),
    /// Text, which may write a count.
    Text(String),
    /// Anything else.
    Other,
}

/// What the limit of a search says.
pub enum LimitModel {
    Count(u64),
    Text(Seq<char>),
    Other,
}

impl View for LimitParam {
    type V = LimitModel;

    open spec fn view(&self) -> LimitModel {
        match self {
            LimitParam::Count(n) => LimitModel::Count(*n),
            LimitParam::Text(t) => LimitModel::Text(t@),
            LimitParam::Other => LimitModel::Other,
        }
    }
}

/// The count that a search is cut to: the number given, or the count that
/// the text given writes. What gives no count sets no limit.
pub open spec fn requested_limit(limit: Option<LimitModel>) -> Option<u64> {
    match limit {
        Some(LimitModel::Count(n)) => Some(n),
        Some(LimitModel::Text(t)) => count_of(t),
        _ => None,
    }
}

/// The body of a search across all collections.
#[derive(Debug, PartialEq, Eq)]
pub struct SearchRequest {
    pub bbox: Option<Vec<i64>>,
    pub intersects: Option<String>,
    pub contains: Option<String>,
    pub sortby: Option<String>,
    pub limit: Option<LimitParam>,
}

/// What a search says.
pub struct RequestModel {
    pub bbox: Option<Seq<i64>>,
    pub intersects: Option<Seq<char>>,
    pub contains: Option<Seq<char>>,
    pub sortby: Option<Seq<char>>,
    pub limit: Option<LimitModel>,
}

impl View for SearchRequest {
    type V = RequestModel;

    open spec fn view(&self) -> RequestModel {
        RequestModel {
            bbox: match self.bbox {
                Some(b) => Some(b@),
                None => None,
            },
            intersects: text_of(self.intersects),
            contains: text_of(self.contains),
            sortby: text_of(self.sortby),
            limit: match self.limit {
                Some(l) => Some(l@),
                None => None,
            },
        }
    }
}

/// How many filters a search gives.
pub open spec fn filter_count(request: RequestModel) -> int {
    (if request.intersects is Some {
        1int
    } else {
        0int
    }) + (if request.contains is Some {
        1int
    } else {
        0int
    }) + (if request.bbox is Some {
        1int
    } else {
        0int
    })
}

/// The filter of a search, if it gives one: more than one is a conflict, a
/// bounding box asks for the footprints that its rectangle intersects, and
/// four numbers that are no bounding box are turned down.
pub open spec fn planned_filter(request: RequestModel) -> Result<
    Option<(Predicate, ShapeModel)>,
    RequestError,
> {
    if filter_count(request) > 1 {
        Err(RequestError::ConflictingFilters)
    } else {
        match (request.bbox, request.intersects, request.contains) {
            (Some(b), _, _) => if is_bbox(b) {
                Ok(
                    Some(
                        (
                            Predicate::Intersects,
                            ShapeModel::Bounds(rectangle_ring(b[0], b[1], b[2], b[3])),
                        ),
                    ),
                )
            } else {
                Err(RequestError::MalformedFilter)
            },
            (None, Some(text), _) => Ok(Some((Predicate::Intersects, ShapeModel::Wkt(text)))),
            (None, None, Some(text)) => Ok(Some((Predicate::Contains, ShapeModel::Wkt(text)))),
            (None, None, None) => Ok(None),
        }
    }
}

/// The answer to a search across all collections.
#[derive(Debug, PartialEq, Eq)]
pub enum SearchReply {
    /// The request is turned down.
    Rejected(RequestError),
    /// The filter is to be evaluated against every record of the service,
    /// collection after collection, and the search asked again with what
    /// the evaluation gave.
    Evaluate(SpatialFilter),
    /// The items of the records found, sorted and cut as asked.
    Items(Vec<Item>),
}

/// Whether `reply` answers the search `request` across the collections of
/// `service`, with what the evaluation of its filter gave, where it has one
/// and it was evaluated yet. A search without a filter needs no evaluation
/// and goes by none.
pub open spec fn is_search_all_reply(
    service: crate::catalog::ServiceModel,
    request: RequestModel,
    evaluation: Option<EvaluationModel>,
    reply: SearchReply,
) -> bool {
    match planned_filter(request) {
        Err(e) => reply matches SearchReply::Rejected(f) && f == e,
        Ok(None) => is_found(
            search_answer(
                all_records(service.collections),
                None,
                request.sortby,
                requested_limit(request.limit),
            ),
            reply,
        ),
        Ok(Some((predicate, shape))) => match evaluation {
            None => reply matches SearchReply::Evaluate(f) && f.predicate == predicate && f.shape@
                == shape,
            Some(e) => is_found(
                search_answer(
                    all_records(service.collections),
                    Some((predicate, e)),
                    request.sortby,
                    requested_limit(request.limit),
                ),
                reply,
            ),
        },
    }
}

/// Whether `reply` hands out what a search gave.
pub open spec fn is_found(answer: Result<Seq<ItemModel>, RequestError>, reply: SearchReply) -> bool {
    match answer {
        Ok(items) => reply matches SearchReply::Items(found) && item_models(found@) == items,
        Err(e) => reply matches SearchReply::Rejected(f) && f == e,
    }
}

/// The filter of a search, if it gives one.
fn plan_filter(params: &SearchRequest) -> (r: Result<Option<SpatialFilter>, RequestError>)
    ensures
        match planned_filter(params@) {
            Err(e) => r matches Err(f) && f == e,
            Ok(None) => r matches Ok(None),
            Ok(Some((predicate, shape))) => r matches Ok(Some(f)) && f.predicate == predicate
                && f.shape@ == shape,
        },
{
    let mut given: u8 = 0;
    if params.intersects.is_some() {
        given += 1;
    }
    if params.contains.is_some() {
        given += 1;
    }
    if params.bbox.is_some() {
        given += 1;
    }
    if given > 1 {
        return Err(RequestError::ConflictingFilters);
    }
    match &params.bbox {
        Some(b) => {
            return match bbox_to_bounds(b) {
                Ok(bounds) => Ok(
                    Some(
                        SpatialFilter {
                            predicate: Predicate::Intersects,
                            shape: FilterShape::Bounds(bounds),
                        },
                    ),
                ),
                Err(e) => Err(e),
            };
        },
        None => {},
    }
    match &params.intersects {
        Some(text) => {
            return Ok(
                Some(
                    SpatialFilter {
                        predicate: Predicate::Intersects,
                        shape: FilterShape::Wkt(text.clone()),
                    },
                ),
            );
        },
        None => {},
    }
    match &params.contains {
        Some(text) => {
            return Ok(
                Some(
                    SpatialFilter {
                        predicate: Predicate::Contains,
                        shape: FilterShape::Wkt(text.clone()),
                    },
                ),
            );
        },
        None => {},
    }
    Ok(None)
}

/// The count that a search is cut to.
pub fn limit_of(limit: &Option<LimitParam>) -> (r: Option<u64>)
    ensures
        r == requested_limit(
            match limit {
                Some(l) => Some(l@),
                None => None,
            },
        ),
{
    match limit {
        Some(LimitParam::Count(n)) => Some(*n),
        Some(LimitParam::Text(t)) => {
            let chars = chars_of(t.as_str());
            parse_count(&chars)
        },
        _ => None,
    }
}

/// Answers a search across all collections: with what is to be evaluated,
/// where the search has a filter; with the items found, where it has none
/// or is asked again with what the evaluation gave. More than one filter is
/// never merged: the request is turned down.
pub fn search_all_collections(
    params: &SearchRequest,
    evaluation: Option<&Evaluation>,
    coverage: &Service,
) -> (r: SearchReply)
    ensures
        is_search_all_reply(coverage@, params@, evaluation_model(evaluation), r),
        filter_count(params@) > 1 ==> (r matches SearchReply::Rejected(e) && e
            == RequestError::ConflictingFilters),
{
    let filter: Option<(Predicate, &Evaluation)> = match plan_filter(params) {
        Err(e) => {
            return SearchReply::Rejected(e);
        },
        Ok(None) => None,
        Ok(Some(f)) => match evaluation {
            Some(e) => Some((f.predicate, e)),
            None => {
                return SearchReply::Evaluate(f);
            },
        },
    };
    let images = coverage.all_images();
    let limit = limit_of(&params.limit);
    let sortby: Option<&str> = match &params.sortby {
        Some(s) => Some(s.as_str()),
        None => None,
    };
    match search(&images, filter, sortby, limit) {
        Ok(items) => SearchReply::Items(items),
        Err(e) => SearchReply::Rejected(e),
    }
}

/// The landing page of the service, or nothing where one of its addresses
/// does not resolve.
pub fn landing(coverage: &Service) -> (r: Option<LandingPage>)
    ensures
        match r {
            Some(page) => crate::stac::landing_resolves(
                coverage@.base_url,
                crate::catalog::store_ids(coverage@.collections),
            ) && page@ == crate::stac::landing_page(
                coverage@.id,
                coverage@.title,
                coverage@.description,
                coverage@.base_url,
                crate::catalog::store_ids(coverage@.collections),
            ),
            None => !crate::stac::landing_resolves(
                coverage@.base_url,
                crate::catalog::store_ids(coverage@.collections),
            ),
        },
{
    coverage.stac_landing()
}

} // verus!
