//! The record store: the cataloged rasters of a collection, the collections
//! of a service, and the documents that describe them.

use vstd::prelude::*;
use vstd::string::*;
use crate::address::{collection_address, collection_href, item_href, service_href};
use crate::geometry::{envelope, is_ring, Coordinate, Polygon, UNITS_PER_ONE};
use crate::query::refs_of;
use crate::stac::{
    bbox_of, catalog_link, collection_ids, copy_text, item_link, landing_page, landing_resolves,
    link_to_item, stac_version, text_of, Collection, CollectionModel, CollectionType, Item,
    ItemAsset, ItemModel, ItemProperties, ItemType, LandingPage, LinkModel, PropertiesModel,
    StacRel,
};
use crate::time::Timestamp;

verus! {

/// The ground size of one pixel along each axis, in billionths of a unit:
/// of a metre where the raster is stored in degrees, of the raster's own map
/// unit otherwise.
#[derive(Clone, Copy, Debug, PartialEq, Eq, Structural)]
pub struct Resolution {
    pub y: u64,
    pub x: u64,
}

impl Resolution {
    /// The mean of the two sizes, rounded down.
    pub open spec fn mean(self) -> int {
        (self.x + self.y) / 2
    }

    /// Both sizes are more than nothing.
    pub open spec fn is_positive(self) -> bool {
        self.x > 0 && self.y > 0
    }

    /// The mean of the two sizes, rounded down: the one key that records
    /// are sorted by.
    pub fn avg(&self) -> (r: u64)
        ensures
            r == self.mean(),
    {
        self.x / 2 + self.y / 2 + (self.x % 2 + self.y % 2) / 2
    }
}

/// The largest cloud cover that a record can state: all of the raster.
pub open spec fn full_cloud_cover() -> int {
    100 * UNITS_PER_ONE
}

/// What is known of a cataloged raster besides its footprint.
#[derive(Clone, Debug, PartialEq, Eq)]
pub struct ImageryFileProperties {
    pub path: String,
    pub filename: String,
    pub crs: String,
    pub resolution: Resolution,
    pub num_bands: u16,
    pub description: Option<String>,
    /// The share of the raster under cloud, in billionths of a percent.
    pub cloud_coverage: Option<u64>,
    pub timestamp: Timestamp,
    pub red_band: Option<u16>,
    pub ni_band: Option<u16>,
}

/// What the properties of a record say.
pub struct FilePropertiesModel {
    pub path: Seq<char>,
    pub filename: Seq<char>,
    pub crs: Seq<char>,
    pub resolution: Resolution,
    pub num_bands: u16,
    pub description: Option<Seq<char>>,
    pub cloud_coverage: Option<u64>,
    pub timestamp: Timestamp,
    pub red_band: Option<u16>,
    pub ni_band: Option<u16>,
}

impl View for ImageryFileProperties {
    type V = FilePropertiesModel;

    open spec fn view(&self) -> FilePropertiesModel {
        FilePropertiesModel {
            path: self.path@,
            filename: self.filename@,
            crs: self.crs@,
            resolution: self.resolution,
            num_bands: self.num_bands,
            description: text_of(self.description),
            cloud_coverage: self.cloud_coverage,
            timestamp: self.timestamp,
            red_band: self.red_band,
            ni_band: self.ni_band,
        }
    }
}

/// What a record says.
pub struct RecordModel {
    /// Where the raster is, as the one who cataloged it wrote it.
    pub path: Seq<char>,
    /// The name of the record, by which it is found in its collection.
    pub filename: Seq<char>,
    /// The footprint of the raster on the ground: a ring of longitudes and
    /// latitudes.
    pub boundary: Seq<Coordinate>,
    pub properties: FilePropertiesModel,
    /// The collection that owns the record.
    pub collection_id: Seq<char>,
}

/// What a record must meet to be cataloged.
pub open spec fn is_valid_record(r: RecordModel) -> bool {
    &&& is_ring(r.boundary)
    &&& r.properties.resolution.is_positive()
    &&& r.properties.cloud_coverage matches Some(c) ==> c <= full_cloud_cover()
}

/// The properties of the item that stands for the record `r`.
pub open spec fn item_properties(r: RecordModel) -> PropertiesModel {
    PropertiesModel {
        title: r.filename,
        description: r.properties.description,
        datetime: r.properties.timestamp,
        created: None,
        updated: None,
        spatial_resolution: Some(r.properties.resolution.mean() as u64),
    }
}

/// The item that stands for the record `r`: its footprint with the envelope
/// of it, its properties, and the raster itself as the one thing to fetch.
pub open spec fn item_of(r: RecordModel) -> ItemModel {
    ItemModel {
        item_type: ItemType::Feature,
        properties: item_properties(r),
        id: r.filename,
        geometry: r.boundary,
        bbox: bbox_of(envelope(r.boundary)),
        links: Seq::empty(),
        assets: seq![("file"@, r.properties.path)],
        collection: Some(r.collection_id),
        path: r.properties.path,
    }
}

/// One cataloged raster.
#[derive(Debug)]
pub struct ImageryFile {
    path: String,
    filename: String,
    boundary: Polygon,
    properties: ImageryFileProperties,
    collection_id: String,
}

impl View for ImageryFile {
    type V = RecordModel;

    closed spec fn view(&self) -> RecordModel {
        RecordModel {
            path: self.path@,
            filename: self.filename@,
            boundary: self.boundary@,
            properties: self.properties@,
            collection_id: self.collection_id@,
        }
    }
}

impl ImageryFile {
    #[verifier::type_invariant]
    spec fn is_cataloged(&self) -> bool {
        is_valid_record(self@)
    }

    /// Catalogs a raster, or gives nothing where a size of its pixels is
    /// nothing or its cloud cover is more than all of it.
    pub fn new(
        path: String,
        filename: &str,
        collection_id: &str,
        boundary: Polygon,
        crs: String,
        resolution: Resolution,
        num_bands: u16,
        description: Option<String>,
        cloud_coverage: Option<u64>,
        timestamp: Timestamp,
    ) -> (r: Option<ImageryFile>)
        ensures
            match r {
                Some(f) => f@ == (RecordModel {
                    path: path@,
                    filename: filename@,
                    boundary: boundary@,
                    properties: FilePropertiesModel {
                        path: path@,
                        filename: filename@,
                        crs: crs@,
                        resolution,
                        num_bands,
                        description: text_of(description),
                        cloud_coverage,
                        timestamp,
                        red_band: None,
                        ni_band: None,
                    },
                    collection_id: collection_id@,
                }) && is_valid_record(f@),
                None => !resolution.is_positive() || (cloud_coverage matches Some(c) && c
                    > full_cloud_cover()),
            },
    {
        if resolution.x == 0 || resolution.y == 0 {
            return None;
        }
        match cloud_coverage {
            Some(c) => {
                if c > 100 * (UNITS_PER_ONE as u64) {
                    return None;
                }
            },
            None => {},
        }
        let _ = boundary.exterior();
        let properties = ImageryFileProperties {
            path: path.clone(),
            filename: String::from_str(filename),
            crs,
            resolution,
            description,
            num_bands,
            cloud_coverage,
            timestamp,
            red_band: None,
            ni_band: None,
        };
        Some(
            ImageryFile {
                path,
                filename: String::from_str(filename),
                boundary,
                properties,
                collection_id: String::from_str(collection_id),
            },
        )
    }

    /// The name of the record. Every record meets what cataloging asks.
    pub fn filename(&self) -> (r: &String)
        ensures
            r@ == self@.filename,
            is_valid_record(self@),
    {
        proof {
            use_type_invariant(self);
        }
        &self.filename
    }

    /// Where the raster is.
    pub fn path(&self) -> (r: &String)
        ensures
            r@ == self@.path,
    {
        &self.path
    }

    /// The collection that owns the record.
    pub fn collection_id(&self) -> (r: &String)
        ensures
            r@ == self@.collection_id,
    {
        &self.collection_id
    }

    /// The footprint of the raster.
    pub fn boundary(&self) -> (r: &Polygon)
        ensures
            r@ == self@.boundary,
            is_ring(r@),
    {
        proof {
            use_type_invariant(self);
        }
        &self.boundary
    }

    /// What else is known of the raster.
    pub fn properties(&self) -> (r: &ImageryFileProperties)
        ensures
            r@ == self@.properties,
            r.resolution.is_positive(),
            r.cloud_coverage matches Some(c) ==> c <= full_cloud_cover(),
    {
        proof {
            use_type_invariant(self);
        }
        &self.properties
    }

    /// The properties of the item that stands for this record.
    pub fn stac_properties(&self) -> (r: ItemProperties)
        ensures
            r@ == item_properties(self@),
    {
        ItemProperties {
            datetime: self.properties.timestamp,
            title: self.filename.clone(),
            description: copy_text(&self.properties.description),
            created: None,
            updated: None,
            spatial_resolution: Some(self.properties.resolution.avg()),
        }
    }

    /// The item that stands for this record.
    pub fn to_stac_feature(&self) -> (r: Item)
        ensures
            r@ == item_of(self@),
    {
        let geometry = self.boundary.clone();
        let bbox_rect = self.boundary.bounding_rect();
        let mut bbox: Vec<i64> = Vec::new();
        bbox.push(bbox_rect.min.x);
        bbox.push(bbox_rect.min.y);
        bbox.push(bbox_rect.max.x);
        bbox.push(bbox_rect.max.y);
        let properties = self.stac_properties();
        let mut assets: Vec<ItemAsset> = Vec::new();
        assets.push(ItemAsset { name: String::from_str("file"), href: self.properties.path.clone() });
        let item = Item {
            item_type: ItemType::Feature,
            properties,
            id: self.filename.clone(),
            geometry,
            bbox,
            links: Vec::new(),
            assets,
            collection: Some(self.collection_id.clone()),
            path: self.properties.path.clone(),
        };
        proof {
            assert(item@.bbox =~= bbox_of(envelope(self@.boundary)));
            assert(item@.links =~= Seq::<LinkModel>::empty());
            assert(item@.assets =~= seq![("file"@, self@.properties.path)]);
        }
        item
    }
}

/// The bounding box of the item that stands for a record is the envelope of
/// the record's footprint, to the last unit.
pub proof fn item_bbox_is_envelope(r: RecordModel)
    requires
        is_valid_record(r),
    ensures
        item_of(r).bbox.len() == 4,
        crate::geometry::is_envelope(
            r.boundary,
            crate::geometry::Rect {
                min: Coordinate { x: item_of(r).bbox[0], y: item_of(r).bbox[1] },
                max: Coordinate { x: item_of(r).bbox[2], y: item_of(r).bbox[3] },
            },
        ),
{
    crate::geometry::envelope_exists(r.boundary);
}

/// What each record of a list says.
pub open spec fn record_models(records: Seq<ImageryFile>) -> Seq<RecordModel> {
    records.map_values(|f: ImageryFile| f@)
}

/// What each record that a list points to says.
pub open spec fn models_of(records: Seq<&ImageryFile>) -> Seq<RecordModel> {
    records.map_values(|f: &ImageryFile| f@)
}

/// The items that stand for the records of a list.
pub open spec fn items_of(records: Seq<RecordModel>) -> Seq<ItemModel> {
    records.map_values(|r: RecordModel| item_of(r))
}

/// What each item of a list says.
pub open spec fn item_models(items: Seq<Item>) -> Seq<ItemModel> {
    items.map_values(|i: Item| i@)
}

/// The sort keys of the records of a list: the mean pixel size of each.
pub open spec fn resolution_keys(records: Seq<RecordModel>) -> Seq<u64> {
    records.map_values(|r: RecordModel| r.properties.resolution.mean() as u64)
}

/// A list of records that can be handed out as a list of items.
pub trait AsFeatureCollection {
    /// What the records of the list say.
    spec fn records(&self) -> Seq<RecordModel>;

    /// The items that stand for the records, in their order.
    fn as_feature_collection(&self) -> (r: Vec<Item>)
        ensures
            item_models(r@) == items_of(self.records()),
    ;
}

/// The items that stand for the records of a list, in their order.
fn features_of(records: &Vec<&ImageryFile>) -> (r: Vec<Item>)
    ensures
        item_models(r@) == items_of(models_of(records@)),
{
    let mut features: Vec<Item> = Vec::new();
    let mut i: usize = 0;
    while i < records.len()
        invariant
            i <= records.len(),
            features.len() == i,
            forall|k: int| 0 <= k < i ==> (#[trigger] features[k])@ == item_of(records[k]@),
        decreases records.len() - i,
    {
        features.push(records[i].to_stac_feature());
        i += 1;
    }
    proof {
        assert(item_models(features@) =~= items_of(models_of(records@)));
    }
    features
}

impl<'a> AsFeatureCollection for Vec<&'a ImageryFile> {
    open spec fn records(&self) -> Seq<RecordModel> {
        models_of(self@)
    }

    fn as_feature_collection(&self) -> (r: Vec<Item>) {
        features_of(self)
    }
}

impl AsFeatureCollection for Vec<ImageryFile> {
    open spec fn records(&self) -> Seq<RecordModel> {
        record_models(self@)
    }

    fn as_feature_collection(&self) -> (r: Vec<Item>) {
        let records = refs_of(self);
        proof {
            assert(models_of(records@) =~= record_models(self@));
        }
        features_of(&records)
    }
}

/// The sort keys of the records of a list.
pub fn resolution_keys_of(records: &Vec<&ImageryFile>) -> (r: Vec<u64>)
    ensures
        r@ == resolution_keys(models_of(records@)),
{
    let mut keys: Vec<u64> = Vec::new();
    let mut i: usize = 0;
    while i < records.len()
        invariant
            i <= records.len(),
            keys.len() == i,
            forall|k: int|
                0 <= k < i ==> #[trigger] keys[k] == records[k]@.properties.resolution.mean(),
        decreases records.len() - i,
    {
        keys.push(records[i].properties().resolution.avg());
        i += 1;
    }
    keys
}

/// The first of `items` whose name is `id`, where `name` gives the name of
/// an item.
pub open spec fn find_named<T>(items: Seq<T>, name: spec_fn(T) -> Seq<char>, id: Seq<char>) -> Option<
    T,
>
    decreases items.len(),
{
    if items.len() == 0 {
        None
    } else if name(items[0]) == id {
        Some(items[0])
    } else {
        find_named(items.drop_first(), name, id)
    }
}

/// An item is found by its name if and only if an item has that name, and
/// what is found has it.
pub proof fn find_named_finds<T>(items: Seq<T>, name: spec_fn(T) -> Seq<char>, id: Seq<char>)
    ensures
        match find_named(items, name, id) {
            Some(r) => name(r) == id && items.contains(r),
            None => forall|i: int| 0 <= i < items.len() ==> name(#[trigger] items[i]) != id,
        },
    decreases items.len(),
{
    if items.len() > 0 && name(items[0]) != id {
        let rest = items.drop_first();
        find_named_finds(rest, name, id);
        match find_named(rest, name, id) {
            Some(r) => {
                let k = choose|k: int| 0 <= k < rest.len() && rest[k] == r;
                assert(items[k + 1] == r);
            },
            None => {
                assert forall|i: int| 0 <= i < items.len() implies name(#[trigger] items[i])
                    != id by {
                    if i > 0 {
                        assert(rest[i - 1] == items[i]);
                    }
                }
            },
        }
    } else if items.len() > 0 {
        assert(items[0] == items[0]);
    }
}

/// The first record of `records` that is named `id`.
pub open spec fn find_record(records: Seq<RecordModel>, id: Seq<char>) -> Option<RecordModel> {
    find_named(records, |r: RecordModel| r.filename, id)
}

/// No two records of `records` have one name.
pub open spec fn names_are_distinct(records: Seq<RecordModel>) -> bool {
    forall|i: int, j: int|
        0 <= i < j < records.len() ==> (#[trigger] records[i]).filename != (
        #[trigger] records[j]).filename
}

/// Every record of `records` is owned by the collection `id`.
pub open spec fn all_owned_by(records: Seq<RecordModel>, id: Seq<char>) -> bool {
    forall|i: int| 0 <= i < records.len() ==> (#[trigger] records[i]).collection_id == id
}

/// A record is found by its name if and only if a record has that name, and
/// what is found has it.
pub proof fn find_record_finds(records: Seq<RecordModel>, id: Seq<char>)
    ensures
        match find_record(records, id) {
            Some(r) => r.filename == id && records.contains(r),
            None => forall|i: int| 0 <= i < records.len() ==> (#[trigger] records[i]).filename != id,
        },
{
    find_named_finds(records, |r: RecordModel| r.filename, id);
}

/// What a collection of records says.
pub struct StoreModel {
    pub id: Seq<char>,
    pub title: Seq<char>,
    pub description: Seq<char>,
    pub records: Seq<RecordModel>,
}

/// What a collection must meet: its records are its own, and no two of them
/// have one name.
pub open spec fn is_valid_store(c: StoreModel) -> bool {
    &&& names_are_distinct(c.records)
    &&& all_owned_by(c.records, c.id)
    &&& forall|i: int| 0 <= i < c.records.len() ==> is_valid_record(#[trigger] c.records[i])
}

/// The names of the records of a list, in its order.
pub open spec fn record_names(records: Seq<RecordModel>) -> Seq<Seq<char>> {
    records.map_values(|r: RecordModel| r.filename)
}

/// Whether the document of the collection `id` with the records `names` can
/// be written for the service at `base`: the address of the service, that of
/// the collection and that of each record must resolve.
pub open spec fn collection_resolves(base: Seq<char>, id: Seq<char>, names: Seq<Seq<char>>) -> bool {
    &&& service_href(base) is Some
    &&& collection_href(base, id) is Some
    &&& forall|i: int|
        0 <= i < names.len() ==> (#[trigger] item_href(
            collection_href(base, id).unwrap(),
            names[i],
        )) is Some
}

/// The links of a collection document: up to the root, to itself, then to
/// each record in turn.
pub open spec fn collection_links(base: Seq<char>, id: Seq<char>, names: Seq<Seq<char>>) -> Seq<
    LinkModel,
> {
    seq![
        catalog_link(StacRel::Root, service_href(base).unwrap()),
        catalog_link(StacRel::SelfRel, collection_href(base, id).unwrap()),
    ] + Seq::new(
        names.len(),
        |i: int| item_link(item_href(collection_href(base, id).unwrap(), names[i]).unwrap()),
    )
}

/// The document of the collection `c` for the service at `base`.
pub open spec fn collection_document(c: StoreModel, base: Seq<char>) -> CollectionModel {
    CollectionModel {
        collection_type: CollectionType::Collection,
        stac_version: stac_version(),
        id: c.id,
        title: c.title,
        description: c.description,
        links: collection_links(base, c.id, record_names(c.records)),
    }
}

/// The cataloged rasters of one collection.
#[derive(Debug)]
pub struct ImageryCollection {
    id: String,
    title: String,
    description: String,
    files: Vec<ImageryFile>,
}

impl View for ImageryCollection {
    type V = StoreModel;

    closed spec fn view(&self) -> StoreModel {
        StoreModel {
            id: self.id@,
            title: self.title@,
            description: self.description@,
            records: record_models(self.files@),
        }
    }
}

impl ImageryCollection {
    #[verifier::type_invariant]
    spec fn is_consistent(&self) -> bool {
        is_valid_store(self@)
    }

    /// A collection without records.
    pub fn new(id: String, title: String, description: String) -> (r: ImageryCollection)
        ensures
            r@ == (StoreModel {
                id: id@,
                title: title@,
                description: description@,
                records: Seq::empty(),
            }),
    {
        let c = ImageryCollection { id, title, description, files: Vec::new() };
        proof {
            assert(c@.records =~= Seq::<RecordModel>::empty());
        }
        c
    }

    /// Adds a record at the end, and says whether it did: a record of
    /// another collection, or one whose name is taken, is left out.
    pub fn push(&mut self, file: ImageryFile) -> (added: bool)
        ensures
            added == (file@.collection_id == old(self)@.id && find_record(
                old(self)@.records,
                file@.filename,
            ) is None),
            added ==> final(self)@ == (StoreModel {
                records: old(self)@.records.push(file@),
                ..old(self)@
            }),
            !added ==> final(self)@ == old(self)@,
            is_valid_store(final(self)@),
    {
        proof {
            use_type_invariant(&*self);
        }
        let ghost before = self@;
        let owned = *file.collection_id() == self.id;
        let taken = self.get_item(file.filename().clone()).is_some();
        if owned && !taken {
            proof {
                find_record_finds(before.records, file@.filename);
            }
            let mut files: Vec<ImageryFile> = Vec::new();
            core::mem::swap(&mut self.files, &mut files);
            files.push(file);
            proof {
                assert(record_models(files@) =~= before.records.push(file@));
            }
            core::mem::swap(&mut self.files, &mut files);
            true
        } else {
            false
        }
    }

    /// The identifier of the collection.
    pub fn id(&self) -> (r: &String)
        ensures
            r@ == self@.id,
    {
        &self.id
    }

    /// The title of the collection.
    pub fn title(&self) -> (r: &String)
        ensures
            r@ == self@.title,
    {
        &self.title
    }

    /// The description of the collection.
    pub fn description(&self) -> (r: &String)
        ensures
            r@ == self@.description,
    {
        &self.description
    }

    /// All the records of the collection, in the order they were added.
    pub fn all(&self) -> (r: &Vec<ImageryFile>)
        ensures
            record_models(r@) == self@.records,
            is_valid_store(self@),
    {
        proof {
            use_type_invariant(self);
        }
        &self.files
    }

    /// The record named `item_id`, if the collection has one.
    pub fn get_item(&self, item_id: String) -> (r: Option<&ImageryFile>)
        ensures
            match r {
                Some(f) => find_record(self@.records, item_id@) == Some(f@),
                None => find_record(self@.records, item_id@) is None,
            },
    {
        let ghost records = self@.records;
        let mut i: usize = 0;
        proof {
            assert(records.skip(0) =~= records);
        }
        while i < self.files.len()
            invariant
                i <= self.files.len(),
                records == record_models(self.files@),
                find_record(records, item_id@) == find_record(records.skip(i as int), item_id@),
            decreases self.files.len() - i,
        {
            let f = &self.files[i];
            proof {
                assert(records.skip(i as int).drop_first() =~= records.skip(i + 1));
            }
            if f.filename == item_id {
                return Some(f);
            }
            i += 1;
        }
        None
    }

    /// The document of this collection for the service at `base_url`, or
    /// nothing where one of its addresses does not resolve.
    pub fn stac_collection(&self, base_url: &str) -> (r: Option<Collection>)
        ensures
            match r {
                Some(c) => collection_resolves(base_url@, self@.id, record_names(self@.records))
                    && c@ == collection_document(self@, base_url@),
                None => !collection_resolves(base_url@, self@.id, record_names(self@.records)),
            },
    {
        let ghost names = record_names(self@.records);
        let collection_url = match collection_address(base_url, self.id.as_str()) {
            Some(u) => u,
            None => {
                return None;
            },
        };
        let mut collection = Collection::new(
            self.id.clone(),
            self.title.clone(),
            self.description.clone(),
            Vec::new(),
        );
        match collection.root_link(base_url) {
            Some(link) => {
                collection.links.push(link);
            },
            None => {
                return None;
            },
        }
        match collection.self_link(base_url) {
            Some(link) => {
                collection.links.push(link);
            },
            None => {
                return None;
            },
        }
        let files = self.all();
        let mut i: usize = 0;
        while i < files.len()
            invariant
                i <= files.len(),
                record_models(files@) == self@.records,
                names == record_names(self@.records),
                service_href(base_url@) is Some,
                collection_href(base_url@, self@.id) == Some(collection_url@),
                collection.links.len() == 2 + i,
                collection.id@ == self@.id,
                collection.title@ == self@.title,
                collection.description@ == self@.description,
                collection.stac_version@ == stac_version(),
                forall|k: int|
                    0 <= k < i ==> (#[trigger] item_href(collection_url@, names[k])) is Some,
                forall|k: int|
                    0 <= k < 2 + i ==> (#[trigger] collection.links[k])@ == collection_links(
                        base_url@,
                        self@.id,
                        names,
                    )[k],
            decreases files.len() - i,
        {
            match link_to_item(files[i].filename().as_str(), collection_url.as_str()) {
                Some(link) => {
                    collection.links.push(link);
                },
                None => {
                    assert(item_href(collection_url@, names[i as int]) is None);
                    return None;
                },
            }
            i += 1;
        }
        proof {
            assert(collection@.links =~= collection_links(base_url@, self@.id, names));
        }
        Some(collection)
    }
}

/// What a service says.
pub struct ServiceModel {
    pub id: Seq<char>,
    pub title: Seq<char>,
    pub description: Seq<char>,
    pub base_url: Seq<char>,
    pub collections: Seq<StoreModel>,
}

/// What each collection of a list says.
pub open spec fn store_models(collections: Seq<ImageryCollection>) -> Seq<StoreModel> {
    collections.map_values(|c: ImageryCollection| c@)
}

/// The identifiers of the collections of a list, in its order.
pub open spec fn store_ids(collections: Seq<StoreModel>) -> Seq<Seq<char>> {
    collections.map_values(|c: StoreModel| c.id)
}

/// The records of all the collections of a list, collection after
/// collection.
pub open spec fn all_records(collections: Seq<StoreModel>) -> Seq<RecordModel>
    decreases collections.len(),
{
    if collections.len() == 0 {
        Seq::empty()
    } else {
        all_records(collections.drop_last()) + collections[collections.len() - 1].records
    }
}

/// The first collection of `collections` that is identified by `id`.
pub open spec fn find_store(collections: Seq<StoreModel>, id: Seq<char>) -> Option<StoreModel> {
    find_named(collections, |c: StoreModel| c.id, id)
}

/// The record named `item` of the collection `collection` of a service.
pub open spec fn find_item(service: ServiceModel, collection: Seq<char>, item: Seq<char>) -> Option<
    RecordModel,
> {
    match find_store(service.collections, collection) {
        Some(c) => find_record(c.records, item),
        None => None,
    }
}

/// What a service must meet: no two of its collections have one identifier,
/// and each is valid.
pub open spec fn is_valid_service(s: ServiceModel) -> bool {
    &&& forall|i: int, j: int|
        0 <= i < j < s.collections.len() ==> (#[trigger] s.collections[i]).id != (
        #[trigger] s.collections[j]).id
    &&& forall|i: int| 0 <= i < s.collections.len() ==> is_valid_store(#[trigger] s.collections[i])
}

/// A collection is found by its identifier if and only if a collection has
/// that identifier, and what is found has it.
pub proof fn find_store_finds(collections: Seq<StoreModel>, id: Seq<char>)
    ensures
        match find_store(collections, id) {
            Some(c) => c.id == id && collections.contains(c),
            None => forall|i: int|
                0 <= i < collections.len() ==> (#[trigger] collections[i]).id != id,
        },
{
    find_named_finds(collections, |c: StoreModel| c.id, id);
}

/// Names belong to a collection, not to the service: a name that no record
/// of the collection asked for has is not found there, whatever the other
/// collections hold.
pub proof fn items_are_scoped_to_their_collection(
    service: ServiceModel,
    collection: Seq<char>,
    item: Seq<char>,
)
    requires
        forall|i: int, k: int|
            0 <= i < service.collections.len() && 0 <= k < service.collections[i].records.len()
                && (#[trigger] service.collections[i]).id == collection ==> (
            #[trigger] service.collections[i].records[k]).filename != item,
    ensures
        find_item(service, collection, item) is None,
{
    find_store_finds(service.collections, collection);
    match find_store(service.collections, collection) {
        Some(c) => {
            find_record_finds(c.records, item);
            let i = choose|i: int| 0 <= i < service.collections.len() && service.collections[i] == c;
            if find_record(c.records, item) is Some {
                let r = find_record(c.records, item).unwrap();
                let k = choose|k: int| 0 <= k < c.records.len() && c.records[k] == r;
                assert(service.collections[i].records[k].filename != item);
            }
        },
        None => {},
    }
}

/// A catalog service: what it is called, where it answers, and the
/// collections it holds.
#[derive(Debug)]
pub struct Service {
    id: String,
    title: String,
    description: String,
    base_url: String,
    collections: Vec<ImageryCollection>,
}

impl View for Service {
    type V = ServiceModel;

    closed spec fn view(&self) -> ServiceModel {
        ServiceModel {
            id: self.id@,
            title: self.title@,
            description: self.description@,
            base_url: self.base_url@,
            collections: store_models(self.collections@),
        }
    }
}

impl Service {
    #[verifier::type_invariant]
    spec fn is_consistent(&self) -> bool {
        is_valid_service(self@)
    }

    /// A service without collections.
    pub fn new(id: String, title: String, description: String, base_url: String) -> (r: Service)
        ensures
            r@ == (ServiceModel {
                id: id@,
                title: title@,
                description: description@,
                base_url: base_url@,
                collections: Seq::empty(),
            }),
    {
        let s = Service { id, title, description, base_url, collections: Vec::new() };
        proof {
            assert(s@.collections =~= Seq::<StoreModel>::empty());
        }
        s
    }

    /// Adds a collection at the end, and says whether it did: one whose
    /// identifier is taken is left out.
    pub fn insert(&mut self, collection: ImageryCollection) -> (added: bool)
        ensures
            added == (find_store(old(self)@.collections, collection@.id) is None),
            added ==> final(self)@ == (ServiceModel {
                collections: old(self)@.collections.push(collection@),
                ..old(self)@
            }),
            !added ==> final(self)@ == old(self)@,
            is_valid_service(final(self)@),
    {
        proof {
            use_type_invariant(&*self);
            use_type_invariant(&collection);
        }
        let ghost before = self@;
        let taken = self.get(collection.id().as_str()).is_some();
        if !taken {
            proof {
                find_store_finds(before.collections, collection@.id);
            }
            let mut collections: Vec<ImageryCollection> = Vec::new();
            core::mem::swap(&mut self.collections, &mut collections);
            collections.push(collection);
            proof {
                assert(store_models(collections@) =~= before.collections.push(collection@));
            }
            core::mem::swap(&mut self.collections, &mut collections);
            true
        } else {
            false
        }
    }

    /// The identifier of the service.
    pub fn id(&self) -> (r: &String)
        ensures
            r@ == self@.id,
    {
        &self.id
    }

    /// The title of the service.
    pub fn title(&self) -> (r: &String)
        ensures
            r@ == self@.title,
    {
        &self.title
    }

    /// The description of the service.
    pub fn description(&self) -> (r: &String)
        ensures
            r@ == self@.description,
    {
        &self.description
    }

    /// The address at which the service answers.
    pub fn base_url(&self) -> (r: &String)
        ensures
            r@ == self@.base_url,
    {
        &self.base_url
    }

    /// All the collections of the service, in the order they were added.
    pub fn collections(&self) -> (r: &Vec<ImageryCollection>)
        ensures
            store_models(r@) == self@.collections,
            is_valid_service(self@),
    {
        proof {
            use_type_invariant(self);
        }
        &self.collections
    }

    /// The collection identified by `id`, if the service has one.
    pub fn get(&self, id: &str) -> (r: Option<&ImageryCollection>)
        ensures
            match r {
                Some(c) => find_store(self@.collections, id@) == Some(c@),
                None => find_store(self@.collections, id@) is None,
            },
    {
        let ghost stores = self@.collections;
        let wanted = String::from_str(id);
        let mut i: usize = 0;
        proof {
            assert(stores.skip(0) =~= stores);
        }
        while i < self.collections.len()
            invariant
                i <= self.collections.len(),
                wanted@ == id@,
                stores == store_models(self.collections@),
                find_store(stores, id@) == find_store(stores.skip(i as int), id@),
            decreases self.collections.len() - i,
        {
            let c = &self.collections[i];
            proof {
                assert(stores.skip(i as int).drop_first() =~= stores.skip(i + 1));
            }
            if c.id == wanted {
                return Some(c);
            }
            i += 1;
        }
        None
    }

    /// The records of all the collections of the service.
    pub fn all_images(&self) -> (r: Vec<&ImageryFile>)
        ensures
            models_of(r@) == all_records(self@.collections),
    {
        let mut images: Vec<&ImageryFile> = Vec::new();
        let ghost stores = self@.collections;
        let mut i: usize = 0;
        while i < self.collections.len()
            invariant
                i <= self.collections.len(),
                stores == store_models(self.collections@),
                models_of(images@) == all_records(stores.take(i as int)),
            decreases self.collections.len() - i,
        {
            let files = self.collections[i].all();
            let ghost before = images@;
            let mut k: usize = 0;
            while k < files.len()
                invariant
                    k <= files.len(),
                    models_of(images@) == models_of(before) + record_models(files@).take(k as int),
                decreases files.len() - k,
            {
                let ghost earlier = images@;
                images.push(&files[k]);
                proof {
                    assert(models_of(images@) =~= models_of(earlier).push(files[k as int]@));
                }
                k += 1;
            }
            proof {
                assert(stores.take(i + 1).drop_last() =~= stores.take(i as int));
            }
            i += 1;
        }
        proof {
            assert(stores.take(i as int) =~= stores);
        }
        images
    }

    /// The landing page of the service, or nothing where one of its
    /// addresses does not resolve.
    pub fn stac_landing(&self) -> (r: Option<LandingPage>)
        ensures
            match r {
                Some(page) => landing_resolves(self@.base_url, store_ids(self@.collections))
                    && page@ == landing_page(
                    self@.id,
                    self@.title,
                    self@.description,
                    self@.base_url,
                    store_ids(self@.collections),
                ),
                None => !landing_resolves(self@.base_url, store_ids(self@.collections)),
            },
    {
        let mut documents: Vec<Collection> = Vec::new();
        let mut i: usize = 0;
        while i < self.collections.len()
            invariant
                i <= self.collections.len(),
                documents.len() == i,
                forall|k: int|
                    0 <= k < i ==> (#[trigger] documents[k]).id@ == self.collections[k]@.id,
            decreases self.collections.len() - i,
        {
            let c = &self.collections[i];
            documents.push(
                Collection::new(c.id.clone(), c.title.clone(), c.description.clone(), Vec::new()),
            );
            i += 1;
        }
        proof {
            assert(collection_ids(documents@) =~= store_ids(self@.collections));
        }
        LandingPage::new(
            self.id.clone(),
            self.title.clone(),
            self.description.clone(),
            self.base_url.as_str(),
            documents,
        )
    }
}

} // verus!
