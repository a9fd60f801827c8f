//! A catalog of georeferenced rasters: the record store, the query engine
//! and the documents that describe the catalog to clients.
//!
//! Every quantity that is a real number in the field (a longitude, a pixel
//! size, a ground distance) is held as an integer count of billionths of its
//! unit, so that every rule of the catalog is stated and proved over integers.
//!
//! - [`geometry`]: positions, rings and envelopes.
//! - [`catalog`]: records, collections and the service that holds them.
//! - [`query`]: filtering by flags, the stable sort, the cut to a limit.
//! - [`handlers`]: the answer to each request of the catalog protocol.
//! - [`stac`]: the documents that answer a request, their links, and the
//!   properties of an item as a JSON object of the `serde_json` crate.
//! - [`address`]: where the documents are, resolved by the `url` crate.
//! - [`raster`]: from the header of a raster to its record.
//! - [`storage`]: how the objects of a bucket are named in the catalog.
//! - [`text`] and [`time`]: text and instants as they come in, and instants as
//!   the `chrono` crate writes them.
//!
//! Three things are done outside this library, on floating-point numbers:
//! moving a position between coordinate systems, measuring a great-circle
//! distance, and deciding whether a footprint meets a shape. The library says
//! what is to be moved, measured and decided, and takes the outcome.

pub mod address;
pub mod catalog;
pub mod geometry;
pub mod handlers;
pub mod query;
pub mod raster;
pub mod stac;
pub mod storage;
pub mod text;
pub mod time;
