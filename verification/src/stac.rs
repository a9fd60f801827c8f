//! The documents of the catalog protocol: links, the landing page, a
//! collection, an item.

use vstd::prelude::*;
use vstd::string::*;
use crate::address::{collection_address, collection_href, item_address, item_href, service_address, service_href};
use crate::geometry::{Coordinate, Polygon, Rect};
use crate::time::{rfc3339_text, Timestamp};

verus! {

/// The version of the protocol that the documents are written for.
pub open spec fn stac_version() -> Seq<char> {
    "1.0.0"@
}

/// The conformance class that every landing page declares.
pub open spec fn stac_core_def() -> Seq<char> {
    "https://api.stacspec.org/v1.0.0-beta.2/core"@
}

/// The media type of the links between the documents of the catalog.
pub open spec fn catalog_media_type() -> Seq<char> {
    "application/json"@
}

/// The media type of a link to an item.
pub open spec fn item_media_type() -> Seq<char> {
    "application/geo+json"@
}

/// How the target of a link relates to the document that holds the link.
#[derive(Clone, Copy, Debug, PartialEq, Eq, Structural)]
pub enum StacRel {
    /// The document itself.
    SelfRel,
    /// The landing page of the service.
    Root,
    ServiceDesc,
    ServiceDoc,
    Parent,
    Child,
    Item,
}

/// The name of a relation as it is written in a link.
pub open spec fn rel_name(rel: StacRel) -> Seq<char> {
    match rel {
        StacRel::SelfRel => "self"@,
        StacRel::Root => "root"@,
        StacRel::ServiceDesc => "service-desc"@,
        StacRel::ServiceDoc => "service-doc"@,
        StacRel::Parent => "parent"@,
        StacRel::Child => "child"@,
        StacRel::Item => "item"@,
    }
}

impl StacRel {
    /// The name of the relation as it is written in a link.
    pub fn name(&self) -> (r: &'static str)
        ensures
            r@ == rel_name(*self),
    {
        match self {
            StacRel::SelfRel => "self",
            StacRel::Root => "root",
            StacRel::ServiceDesc => "service-desc",
            StacRel::ServiceDoc => "service-doc",
            StacRel::Parent => "parent",
            StacRel::Child => "child",
            StacRel::Item => "item",
        }
    }
}

/// The kind of an item document.
#[derive(Clone, Copy, Debug, PartialEq, Eq, Structural)]
pub enum ItemType {
    Feature,
}

/// The kind of a collection document.
#[derive(Clone, Copy, Debug, PartialEq, Eq, Structural)]
pub enum CollectionType {
    Collection,
}

/// A link of a document.
#[derive(Clone, Debug, PartialEq, Eq)]
pub struct StacLink {
    /// How the target relates to the document.
    pub rel: StacRel,
    /// The media type that a client may expect behind the link.
    pub media_type: String,
    /// The address of the target.
    pub href: String,
}

/// What a link says.
pub struct LinkModel {
    pub rel: StacRel,
    pub media_type: Seq<char>,
    pub href: Seq<char>,
}

impl View for StacLink {
    type V = LinkModel;

    open spec fn view(&self) -> LinkModel {
        LinkModel { rel: self.rel, media_type: self.media_type@, href: self.href@ }
    }
}

/// What each link of a list says.
pub open spec fn link_models(links: Seq<StacLink>) -> Seq<LinkModel> {
    links.map_values(|l: StacLink| l@)
}

/// A link between two documents of the catalog.
pub open spec fn catalog_link(rel: StacRel, href: Seq<char>) -> LinkModel {
    LinkModel { rel, media_type: catalog_media_type(), href }
}

/// A link to the item at `href`.
pub open spec fn item_link(href: Seq<char>) -> LinkModel {
    LinkModel { rel: StacRel::Item, media_type: item_media_type(), href }
}

/// Anything that a link of a collection can point to.
pub trait ToStacLink {
    /// The name by which the target is addressed below its collection.
    spec fn link_name(&self) -> Seq<char>;

    /// The link to this target from the collection at `collection_url`, or
    /// nothing where the name does not resolve against that address.
    fn to_stac_link(&self, collection_url: &str) -> (r: Option<StacLink>)
        ensures
            match r {
                Some(link) => item_href(collection_url@, self.link_name()) == Some(link.href@)
                    && link@ == item_link(link.href@),
                None => item_href(collection_url@, self.link_name()) is None,
            },
    ;
}

/// The link to the item named `id` from the collection at `collection_url`.
pub fn link_to_item(id: &str, collection_url: &str) -> (r: Option<StacLink>)
    ensures
        match r {
            Some(link) => item_href(collection_url@, id@) == Some(link.href@) && link@ == item_link(
                link.href@,
            ),
            None => item_href(collection_url@, id@) is None,
        },
{
    match item_address(collection_url, id) {
        Some(href) => Some(
            StacLink {
                rel: StacRel::Item,
                media_type: String::from_str("application/geo+json"),
                href,
            },
        ),
        None => None,
    }
}

/// A collection document.
#[derive(Clone, Debug, PartialEq, Eq)]
pub struct Collection {
    pub collection_type: CollectionType,
    pub stac_version: String,
    pub id: String,
    pub title: String,
    pub description: String,
    pub links: Vec<StacLink>,
}

/// What a collection document says.
pub struct CollectionModel {
    pub collection_type: CollectionType,
    pub stac_version: Seq<char>,
    pub id: Seq<char>,
    pub title: Seq<char>,
    pub description: Seq<char>,
    pub links: Seq<LinkModel>,
}

impl View for Collection {
    type V = CollectionModel;

    open spec fn view(&self) -> CollectionModel {
        CollectionModel {
            collection_type: self.collection_type,
            stac_version: self.stac_version@,
            id: self.id@,
            title: self.title@,
            description: self.description@,
            links: link_models(self.links@),
        }
    }
}

impl Collection {
    /// A collection document with the given links.
    pub fn new(id: String, title: String, description: String, links: Vec<StacLink>) -> (r:
        Collection)
        ensures
            r.id == id,
            r.title == title,
            r.description == description,
            r.links == links,
            r.stac_version@ == stac_version(),
            r.collection_type == CollectionType::Collection,
    {
        Collection {
            collection_type: CollectionType::Collection,
            stac_version: String::from_str("1.0.0"),
            id,
            title,
            description,
            links,
        }
    }

    /// The link from the landing page of the service at `base_url` down to
    /// this collection.
    pub fn collection_link(&self, base_url: &str) -> (r: Option<StacLink>)
        ensures
            match r {
                Some(link) => collection_href(base_url@, self.id@) == Some(link.href@) && link@
                    == catalog_link(StacRel::Child, link.href@),
                None => collection_href(base_url@, self.id@) is None,
            },
    {
        match collection_address(base_url, self.id.as_str()) {
            Some(href) => Some(
                StacLink {
                    rel: StacRel::Child,
                    href,
                    media_type: String::from_str("application/json"),
                },
            ),
            None => None,
        }
    }

    /// The link of this collection to itself, for the service at `base_url`.
    pub fn self_link(&self, base_url: &str) -> (r: Option<StacLink>)
        ensures
            match r {
                Some(link) => collection_href(base_url@, self.id@) == Some(link.href@) && link@
                    == catalog_link(StacRel::SelfRel, link.href@),
                None => collection_href(base_url@, self.id@) is None,
            },
    {
        match collection_address(base_url, self.id.as_str()) {
            Some(href) => Some(
                StacLink {
                    rel: StacRel::SelfRel,
                    href,
                    media_type: String::from_str("application/json"),
                },
            ),
            None => None,
        }
    }

    /// The link up to the landing page of the service at `base_url`.
    pub fn root_link(&self, base_url: &str) -> (r: Option<StacLink>)
        ensures
            match r {
                Some(link) => service_href(base_url@) == Some(link.href@) && link@ == catalog_link(
                    StacRel::Root,
                    link.href@,
                ),
                None => service_href(base_url@) is None,
            },
    {
        match service_address(base_url) {
            Some(href) => Some(
                StacLink { rel: StacRel::Root, href, media_type: String::from_str("application/json") },
            ),
            None => None,
        }
    }
}

/// The identifiers of the collections of a list, in its order.
pub open spec fn collection_ids(collections: Seq<Collection>) -> Seq<Seq<char>> {
    collections.map_values(|c: Collection| c.id@)
}

/// Whether the landing page of the service at `base` with the collections
/// `ids` can be written: its own address and that of each collection must
/// resolve.
pub open spec fn landing_resolves(base: Seq<char>, ids: Seq<Seq<char>>) -> bool {
    &&& service_href(base) is Some
    &&& forall|i: int| 0 <= i < ids.len() ==> (#[trigger] collection_href(base, ids[i])) is Some
}

/// The links of the landing page: up to the root, to itself, then down to
/// each collection in turn.
pub open spec fn landing_links(base: Seq<char>, ids: Seq<Seq<char>>) -> Seq<LinkModel> {
    seq![
        catalog_link(StacRel::Root, service_href(base).unwrap()),
        catalog_link(StacRel::SelfRel, service_href(base).unwrap()),
    ] + Seq::new(
        ids.len(),
        |i: int| catalog_link(StacRel::Child, collection_href(base, ids[i]).unwrap()),
    )
}

/// The text of an optional string.
pub open spec fn text_of(o: Option<String>) -> Option<Seq<char>> {
    match o {
        Some(s) => Some(s@),
        None => None,
    }
}

/// The text of an optional string slice.
pub open spec fn slice_text(o: Option<&str>) -> Option<Seq<char>> {
    match o {
        Some(s) => Some(s@),
        None => None,
    }
}

/// A copy of an optional string.
pub fn copy_text(o: &Option<String>) -> (r: Option<String>)
    ensures
        text_of(r) == text_of(*o),
{
    match o {
        Some(s) => Some(s.clone()),
        None => None,
    }
}

/// The properties of an item.
#[derive(Clone, Debug, PartialEq, Eq)]
pub struct ItemProperties {
    pub title: String,
    pub description: Option<String>,
    pub datetime: Timestamp,
    pub created: Option<Timestamp>,
    pub updated: Option<Timestamp>,
    /// The mean ground size of a pixel, in billionths of a unit.
    pub spatial_resolution: Option<u64>,
}

/// What the properties of an item say.
pub struct PropertiesModel {
    pub title: Seq<char>,
    pub description: Option<Seq<char>>,
    pub datetime: Timestamp,
    pub created: Option<Timestamp>,
    pub updated: Option<Timestamp>,
    pub spatial_resolution: Option<u64>,
}

impl View for ItemProperties {
    type V = PropertiesModel;

    open spec fn view(&self) -> PropertiesModel {
        PropertiesModel {
            title: self.title@,
            description: text_of(self.description),
            datetime: self.datetime,
            created: self.created,
            updated: self.updated,
            spatial_resolution: self.spatial_resolution,
        }
    }
}

/// What a JSON value says, as far as the catalog writes one: nothing, a
/// text, or a count.
pub enum ValueModel {
    Null,
    Text(Seq<char>),
    Number(u64),
}

/// What the JSON object `m` of `serde_json` holds: under each name that it
/// has, `Null` for a null, `Text` for a string with its text, and `Number`
/// for a whole number from zero up that fits in 64 bits, with that number.
/// Nothing is said of values of other kinds.
pub uninterp spec fn json_entries(m: serde_json::Map<String, serde_json::Value>) -> Map<
    Seq<char>,
    ValueModel,
>;

/// The JSON objects of `serde_json`, from names to values.
#[verifier::external_type_specification]
#[verifier::external_body]
#[verifier::reject_recursive_types(K)]
#[verifier::reject_recursive_types(V)]
pub struct ExJsonMap<K, V>(serde_json::Map<K, V>);

/// The JSON values of `serde_json`.
#[verifier::external_type_specification]
#[verifier::external_body]
pub struct ExJsonValue(serde_json::Value);

/// The value that stands for an optional text.
pub open spec fn text_value(t: Option<Seq<char>>) -> ValueModel {
    match t {
        Some(t) => ValueModel::Text(t),
        None => ValueModel::Null,
    }
}

/// The value that stands for an optional instant: its RFC 3339 text. An
/// instant that no date can hold has no value, as an absent one.
pub open spec fn instant_value(t: Option<Timestamp>) -> ValueModel {
    match t {
        Some(t) => text_value(rfc3339_text(t.seconds, t.nanos)),
        None => ValueModel::Null,
    }
}

/// The value that stands for an optional count.
pub open spec fn number_value(n: Option<u64>) -> ValueModel {
    match n {
        Some(n) => ValueModel::Number(n),
        None => ValueModel::Null,
    }
}

/// An object that holds nothing.
pub open spec fn no_entries() -> Map<Seq<char>, ValueModel> {
    Map::empty()
}

/// Calls `serde_json::Map::new`: the object that it makes holds nothing.
#[verifier::external_body]
fn empty_object() -> (r: serde_json::Map<String, serde_json::Value>)
    ensures
        json_entries(r) == no_entries(),
{
    serde_json::Map::new()
}

/// Calls `serde_json::Map::insert` with `key` and the value that
/// `Value::from` makes of `text`: a string with that text, or a null where
/// there is none. The object then holds that value under `key`, in place of
/// what it held there, and everything else as before.
#[verifier::external_body]
fn insert_text(m: &mut serde_json::Map<String, serde_json::Value>, key: &str, text: Option<&str>)
    ensures
        json_entries(*final(m)) == json_entries(*old(m)).insert(key@, text_value(slice_text(text))),
{
    m.insert(String::from(key), serde_json::Value::from(text));
}

/// Calls `serde_json::Map::insert` with `key` and the value that
/// `Value::from` makes of `n`: that number, or a null where there is none.
/// The object then holds that value under `key`, in place of what it held
/// there, and everything else as before.
#[verifier::external_body]
fn insert_number(m: &mut serde_json::Map<String, serde_json::Value>, key: &str, n: Option<u64>)
    ensures
        json_entries(*final(m)) == json_entries(*old(m)).insert(key@, number_value(n)),
{
    m.insert(String::from(key), serde_json::Value::from(n));
}

/// The properties as the members of a JSON object: an absent property is
/// named all the same, with no value. The size of a pixel is a count of
/// billionths of a unit.
pub open spec fn property_map(p: PropertiesModel) -> Map<Seq<char>, ValueModel> {
    map![
        "title"@ => text_value(Some(p.title)),
        "description"@ => text_value(p.description),
        "datetime"@ => instant_value(Some(p.datetime)),
        "created"@ => instant_value(p.created),
        "updated"@ => instant_value(p.updated),
        "spatial_resolution"@ => number_value(p.spatial_resolution),
    ]
}

/// The object of the properties has six members, and each holds what its
/// name says.
pub proof fn properties_are_named(p: PropertiesModel)
    ensures
        property_map(p).dom() =~= set![
            "title"@,
            "description"@,
            "datetime"@,
            "created"@,
            "updated"@,
            "spatial_resolution"@,
        ],
        property_map(p)["title"@] == ValueModel::Text(p.title),
        property_map(p)["description"@] == text_value(p.description),
        property_map(p)["datetime"@] == instant_value(Some(p.datetime)),
        property_map(p)["created"@] == instant_value(p.created),
        property_map(p)["updated"@] == instant_value(p.updated),
        property_map(p)["spatial_resolution"@] == number_value(p.spatial_resolution),
{
    reveal_strlit("title");
    reveal_strlit("description");
    reveal_strlit("datetime");
    reveal_strlit("created");
    reveal_strlit("updated");
    reveal_strlit("spatial_resolution");
    assert("title"@.len() == 5 && "description"@.len() == 11 && "datetime"@.len() == 8);
    assert("created"@[0] == 'c' && "updated"@[0] == 'u');
    assert("spatial_resolution"@.len() == 18);
}

/// Puts an optional instant under `key`, as its RFC 3339 text.
fn insert_instant(
    m: &mut serde_json::Map<String, serde_json::Value>,
    key: &str,
    t: Option<Timestamp>,
)
    ensures
        json_entries(*final(m)) == json_entries(*old(m)).insert(key@, instant_value(t)),
{
    let text: Option<String> = match t {
        Some(t) => t.to_rfc3339(),
        None => None,
    };
    match &text {
        Some(written) => insert_text(m, key, Some(written.as_str())),
        None => insert_text(m, key, None),
    }
}

impl ItemProperties {
    /// The properties as a JSON object.
    pub fn to_map(&self) -> (r: serde_json::Map<String, serde_json::Value>)
        ensures
            json_entries(r) == property_map(self@),
    {
        let mut properties = empty_object();
        insert_text(&mut properties, "title", Some(self.title.as_str()));
        let description: Option<&str> = match &self.description {
            Some(d) => Some(d.as_str()),
            None => None,
        };
        insert_text(&mut properties, "description", description);
        insert_instant(&mut properties, "datetime", Some(self.datetime));
        insert_instant(&mut properties, "created", self.created);
        insert_instant(&mut properties, "updated", self.updated);
        insert_number(&mut properties, "spatial_resolution", self.spatial_resolution);
        properties
    }
}

/// Something that an item offers for download.
#[derive(Clone, Debug, PartialEq, Eq)]
pub struct ItemAsset {
    pub name: String,
    pub href: String,
}

/// An item: one cataloged raster as a feature.
#[derive(Clone, Debug, PartialEq, Eq)]
pub struct Item {
    pub item_type: ItemType,
    pub properties: ItemProperties,
    pub id: String,
    pub geometry: Polygon,
    /// The envelope of the geometry: its least x and y, then its greatest.
    pub bbox: Vec<i64>,
    pub links: Vec<StacLink>,
    pub assets: Vec<ItemAsset>,
    pub collection: Option<String>,
    pub path: String,
}

/// What an item says.
pub struct ItemModel {
    pub item_type: ItemType,
    pub properties: PropertiesModel,
    pub id: Seq<char>,
    pub geometry: Seq<Coordinate>,
    pub bbox: Seq<i64>,
    pub links: Seq<LinkModel>,
    pub assets: Seq<(Seq<char>, Seq<char>)>,
    pub collection: Option<Seq<char>>,
    pub path: Seq<char>,
}

impl View for Item {
    type V = ItemModel;

    open spec fn view(&self) -> ItemModel {
        ItemModel {
            item_type: self.item_type,
            properties: self.properties@,
            id: self.id@,
            geometry: self.geometry@,
            bbox: self.bbox@,
            links: link_models(self.links@),
            assets: self.assets@.map_values(|a: ItemAsset| (a.name@, a.href@)),
            collection: text_of(self.collection),
            path: self.path@,
        }
    }
}

/// The four numbers of a bounding box that stand for the rectangle `r`.
pub open spec fn bbox_of(r: Rect) -> Seq<i64> {
    seq![r.min.x, r.min.y, r.max.x, r.max.y]
}

impl ToStacLink for Item {
    open spec fn link_name(&self) -> Seq<char> {
        self.id@
    }

    fn to_stac_link(&self, collection_url: &str) -> (r: Option<StacLink>) {
        link_to_item(self.id.as_str(), collection_url)
    }
}

/// The landing page of a service.
#[derive(Clone, Debug, PartialEq, Eq)]
pub struct LandingPage {
    pub stac_version: String,
    pub id: String,
    pub title: String,
    pub description: String,
    pub conforms_to: Vec<String>,
    pub links: Vec<StacLink>,
}

/// What a landing page says.
pub struct LandingModel {
    pub stac_version: Seq<char>,
    pub id: Seq<char>,
    pub title: Seq<char>,
    pub description: Seq<char>,
    pub conforms_to: Seq<Seq<char>>,
    pub links: Seq<LinkModel>,
}

impl View for LandingPage {
    type V = LandingModel;

    open spec fn view(&self) -> LandingModel {
        LandingModel {
            stac_version: self.stac_version@,
            id: self.id@,
            title: self.title@,
            description: self.description@,
            conforms_to: self.conforms_to@.map_values(|s: String| s@),
            links: link_models(self.links@),
        }
    }
}

/// The landing page of the service `id` at `base` with the collections
/// `ids`.
pub open spec fn landing_page(
    id: Seq<char>,
    title: Seq<char>,
    description: Seq<char>,
    base: Seq<char>,
    ids: Seq<Seq<char>>,
) -> LandingModel {
    LandingModel {
        stac_version: stac_version(),
        id,
        title,
        description,
        conforms_to: seq![stac_core_def()],
        links: landing_links(base, ids),
    }
}

impl LandingPage {
    /// The landing page of the service at `base_url`, or nothing where one of
    /// its addresses does not resolve.
    pub fn new(
        id: String,
        title: String,
        description: String,
        base_url: &str,
        collections: Vec<Collection>,
    ) -> (r: Option<LandingPage>)
        ensures
            match r {
                Some(page) => landing_resolves(base_url@, collection_ids(collections@)) && page@
                    == landing_page(
                    id@,
                    title@,
                    description@,
                    base_url@,
                    collection_ids(collections@),
                ),
                None => !landing_resolves(base_url@, collection_ids(collections@)),
            },
    {
        let ghost ids = collection_ids(collections@);
        let mut conforms_to: Vec<String> = Vec::new();
        conforms_to.push(String::from_str("https://api.stacspec.org/v1.0.0-beta.2/core"));
        let mut links: Vec<StacLink> = Vec::new();
        let root_href = match service_address(base_url) {
            Some(h) => h,
            None => {
                return None;
            },
        };
        let self_href = root_href.clone();
        links.push(
            StacLink {
                rel: StacRel::Root,
                media_type: String::from_str("application/json"),
                href: root_href,
            },
        );
        links.push(
            StacLink {
                rel: StacRel::SelfRel,
                media_type: String::from_str("application/json"),
                href: self_href,
            },
        );
        let mut i: usize = 0;
        while i < collections.len()
            invariant
                i <= collections.len(),
                ids == collection_ids(collections@),
                service_href(base_url@) is Some,
                links.len() == 2 + i,
                forall|k: int| 0 <= k < i ==> (#[trigger] collection_href(base_url@, ids[k])) is Some,
                forall|k: int|
                    0 <= k < 2 + i ==> (#[trigger] links[k])@ == landing_links(base_url@, ids)[k],
            decreases collections.len() - i,
        {
            match collections[i].collection_link(base_url) {
                Some(link) => {
                    links.push(link);
                },
                None => {
                    assert(collection_href(base_url@, ids[i as int]) is None);
                    return None;
                },
            }
            i += 1;
        }
        let page = LandingPage {
            stac_version: String::from_str("1.0.0"),
            id,
            title,
            description,
            conforms_to,
            links,
        };
        proof {
            assert(page@.links =~= landing_links(base_url@, ids));
            assert(page@.conforms_to =~= seq![stac_core_def()]);
        }
        Some(page)
    }
}

} // verus!
