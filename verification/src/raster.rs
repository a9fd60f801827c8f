//! From the grid of a raster to its place on the ground: the rectangle that
//! the grid covers and the ground size of its pixels.
//!
//! Moving a position from the raster's own coordinate system to longitude
//! and latitude, and measuring the great-circle distance between two
//! positions, are done outside this library. What is moved and measured, and
//! what is made of the outcome, is decided here.

use vstd::prelude::*;
use vstd::string::*;
use crate::catalog::{
    full_cloud_cover, is_valid_record, FilePropertiesModel, ImageryFile, RecordModel, Resolution,
};
use crate::geometry::{
    close_ring, is_ring, rectangle_from, twice_signed_area, Coordinate, Polygon, UNITS_PER_ONE,
};
use crate::stac::text_of;
use crate::time::{instant_of, Timestamp};

verus! {

/// The affine map from the grid of a raster to its coordinate system, each
/// coefficient in billionths of a unit of that system.
#[derive(Clone, Copy, Debug, PartialEq, Eq, Structural)]
pub struct GeoTransform {
    /// The x of the grid's origin, its upper left corner.
    pub origin_x: i64,
    /// How far one step along a row moves in x.
    pub pixel_width: i64,
    /// How far one step along a column moves in x.
    pub x_skew: i64,
    /// The y of the grid's origin.
    pub origin_y: i64,
    /// How far one step along a row moves in y.
    pub y_skew: i64,
    /// How far one step along a column moves in y.
    pub pixel_height: i64,
}

/// Whether `v` is a coordinate that can be stored.
pub open spec fn fits(v: int) -> bool {
    i64::MIN <= v <= i64::MAX
}

/// The x where a grid of `width` columns ends. The skew is left out of
/// account: the extent is that of an unrotated grid.
pub open spec fn extent_end_x(width: u64, t: GeoTransform) -> int {
    t.origin_x + width * t.pixel_width
}

/// The y where a grid of `height` rows ends, the skew left out of account.
pub open spec fn extent_end_y(height: u64, t: GeoTransform) -> int {
    t.origin_y + height * t.pixel_height
}

/// The rectangle that a grid of `width` by `height` pixels covers, as a
/// ring: from the origin of the grid round to the origin again,
/// counter-clockwise, whichever way the far corner lies from the origin.
pub open spec fn extent_of(width: u64, height: u64, t: GeoTransform) -> Seq<Coordinate> {
    rectangle_from(
        t.origin_x,
        t.origin_y,
        extent_end_x(width, t) as i64,
        extent_end_y(height, t) as i64,
    )
}

/// The rectangle that a grid of `width` by `height` pixels covers, where
/// its far corner can be stored. The ring starts at the origin of the grid
/// and is walked counter-clockwise: it encloses an area above zero unless
/// the grid has no extent along an axis.
pub fn get_extent(width: u64, height: u64, transform: &GeoTransform) -> (r: Option<Polygon>)
    ensures
        match r {
            Some(p) => fits(extent_end_x(width, *transform)) && fits(
                extent_end_y(height, *transform),
            ) && p@ == extent_of(width, height, *transform) && p@[0] == (Coordinate {
                x: transform.origin_x,
                y: transform.origin_y,
            }) && twice_signed_area(p@) >= 0 && (width * transform.pixel_width != 0 && height
                * transform.pixel_height != 0 ==> twice_signed_area(p@) > 0),
            None => !fits(extent_end_x(width, *transform)) || !fits(
                extent_end_y(height, *transform),
            ),
        },
{
    let x_max = match offset_by(transform.origin_x, width, transform.pixel_width) {
        Some(v) => v,
        None => {
            return None;
        },
    };
    let y_max = match offset_by(transform.origin_y, height, transform.pixel_height) {
        Some(v) => v,
        None => {
            return None;
        },
    };
    Some(Polygon::rectangle_from(transform.origin_x, transform.origin_y, x_max, y_max))
}

/// `start` moved by `count` steps of `step`, where that can be stored.
fn offset_by(start: i64, count: u64, step: i64) -> (r: Option<i64>)
    ensures
        match r {
            Some(v) => v == start + count * step,
            None => !fits(start + count * step),
        },
{
    assert(-0x7fff_ffff_ffff_ffff_8000_0000_0000_0000 <= count * step
        <= 0x7fff_ffff_ffff_ffff_8000_0000_0000_0000) by (nonlinear_arith)
        requires
            0 <= count <= 0xffff_ffff_ffff_ffff,
            -0x8000_0000_0000_0000 <= step <= 0x7fff_ffff_ffff_ffff,
    ;
    let total: i128 = (start as i128) + (count as i128) * (step as i128);
    if total < i64::MIN as i128 || total > i64::MAX as i128 {
        None
    } else {
        Some(total as i64)
    }
}

/// `r` is the square root of `n`, rounded down.
pub open spec fn is_floor_sqrt(n: int, r: int) -> bool {
    0 <= r && r * r <= n < (r + 1) * (r + 1)
}

/// A number has one square root rounded down.
pub proof fn floor_sqrt_is_unique(n: int, a: int, b: int)
    requires
        is_floor_sqrt(n, a),
        is_floor_sqrt(n, b),
    ensures
        a == b,
{
    assert(a < b + 1 && b < a + 1) by (nonlinear_arith)
        requires
            0 <= a,
            0 <= b,
            a * a < (b + 1) * (b + 1),
            b * b < (a + 1) * (a + 1),
    ;
}

/// The square root of `n`, rounded down.
pub fn floor_sqrt(n: u128) -> (r: u64)
    ensures
        is_floor_sqrt(n as int, r as int),
{
    let mut lo: u128 = 0;
    let mut hi: u128 = 0xffff_ffff_ffff_ffff;
    assert(n < (hi + 1) * (hi + 1)) by (nonlinear_arith)
        requires
            hi == 0xffff_ffff_ffff_ffff,
            n <= 0xffff_ffff_ffff_ffff_ffff_ffff_ffff_ffff,
    ;
    while lo < hi
        invariant
            lo <= hi <= 0xffff_ffff_ffff_ffff,
            lo * lo <= n < (hi + 1) * (hi + 1),
        decreases hi - lo,
    {
        let mid: u128 = lo + (hi - lo + 1) / 2;
        assert(mid * mid <= 0xffff_ffff_ffff_ffff_ffff_ffff_ffff_ffff) by (nonlinear_arith)
            requires
                0 <= mid <= 0xffff_ffff_ffff_ffff,
        ;
        if mid * mid <= n {
            lo = mid;
        } else {
            hi = mid - 1;
        }
    }
    lo as u64
}

/// The length of the step that moves by `a` along one axis and by `b` along
/// the other, rounded down.
pub open spec fn step_length(a: i64, b: i64, r: u64) -> bool {
    is_floor_sqrt(a * a + b * b, r as int)
}

/// The length of the step that moves by `a` along one axis and by `b` along
/// the other, rounded down.
fn length_of_step(a: i64, b: i64) -> (r: u64)
    ensures
        step_length(a, b, r),
{
    assert(0 <= a * a <= 0x4000_0000_0000_0000_0000_0000_0000_0000) by (nonlinear_arith)
        requires
            -0x8000_0000_0000_0000 <= a <= 0x7fff_ffff_ffff_ffff,
    ;
    assert(0 <= b * b <= 0x4000_0000_0000_0000_0000_0000_0000_0000) by (nonlinear_arith)
        requires
            -0x8000_0000_0000_0000 <= b <= 0x7fff_ffff_ffff_ffff,
    ;
    let a_wide: i128 = a as i128;
    let b_wide: i128 = b as i128;
    let aa: u128 = (a_wide * a_wide) as u128;
    let bb: u128 = (b_wide * b_wide) as u128;
    floor_sqrt(aa + bb)
}

/// Whether `r` is the size of a pixel in the raster's own units: along each
/// axis of the grid, the length of one step, skew and all.
pub open spec fn is_native_resolution(t: GeoTransform, r: Resolution) -> bool {
    step_length(t.pixel_width, t.x_skew, r.x) && step_length(t.pixel_height, t.y_skew, r.y)
}

/// The size of a pixel in the raster's own units.
pub open spec fn native_resolution(t: GeoTransform) -> Resolution {
    choose|r: Resolution| is_native_resolution(t, r)
}

/// The size of a pixel in the raster's own units.
pub fn get_resolution_from_geotransform(geotransform: &GeoTransform) -> (r: Resolution)
    ensures
        is_native_resolution(*geotransform, r),
        r == native_resolution(*geotransform),
{
    let x = length_of_step(geotransform.pixel_width, geotransform.x_skew);
    let y = length_of_step(geotransform.pixel_height, geotransform.y_skew);
    proof {
        let t = *geotransform;
        let other = native_resolution(t);
        assert(is_native_resolution(t, Resolution { x, y }));
        floor_sqrt_is_unique(
            t.pixel_width * t.pixel_width + t.x_skew * t.x_skew,
            x as int,
            other.x as int,
        );
        floor_sqrt_is_unique(
            t.pixel_height * t.pixel_height + t.y_skew * t.y_skew,
            y as int,
            other.y as int,
        );
    }
    Resolution { x, y }
}

/// The most that moving the origin to longitude and latitude may change it
/// along either axis, for the raster to count as stored in degrees: a
/// millionth of a degree.
pub open spec fn same_place_tolerance() -> int {
    UNITS_PER_ONE / 1_000_000
}

/// Whether a raster looks as if it were stored in degrees already: its
/// origin is a longitude and a latitude, and moving the origin to longitude
/// and latitude leaves it where it was, to within the tolerance along both
/// axes.
pub open spec fn looks_geographic(t: GeoTransform, moved_origin: Coordinate) -> bool {
    &&& -180 * UNITS_PER_ONE <= t.origin_x <= 180 * UNITS_PER_ONE
    &&& -90 * UNITS_PER_ONE <= t.origin_y <= 90 * UNITS_PER_ONE
    &&& -same_place_tolerance() < moved_origin.x - t.origin_x < same_place_tolerance()
    &&& -same_place_tolerance() < moved_origin.y - t.origin_y < same_place_tolerance()
}

/// What is to be done to know the ground size of a pixel.
#[derive(Clone, Copy, Debug, PartialEq, Eq, Structural)]
pub enum ResolutionStep {
    /// Nothing more: the raster is not stored in degrees, and the size of
    /// its pixels is given in its own units.
    Native(Resolution),
    /// The raster is stored in degrees. The two positions, one pixel east
    /// and one pixel south of the origin, are to be moved to longitude and
    /// latitude, and their great-circle distances from the moved origin are
    /// the size of a pixel, in metres.
    Measure { east: Coordinate, south: Coordinate },
}

/// What is to be done to know the ground size of a pixel, or nothing where
/// the raster is stored in degrees and its pixels are so large that a
/// position one pixel from the origin cannot be stored.
pub open spec fn resolution_step(
    t: GeoTransform,
    moved_origin: Coordinate,
    native: Resolution,
) -> Option<ResolutionStep> {
    if !looks_geographic(t, moved_origin) {
        Some(ResolutionStep::Native(native))
    } else if fits(t.origin_x + native.x) && fits(t.origin_y - native.y) {
        Some(
            ResolutionStep::Measure {
                east: Coordinate { x: (t.origin_x + native.x) as i64, y: t.origin_y },
                south: Coordinate { x: t.origin_x, y: (t.origin_y - native.y) as i64 },
            },
        )
    } else {
        None
    }
}

/// Decides how the ground size of a pixel is to be known, given where the
/// origin of the raster lands when it is moved to longitude and latitude.
pub fn get_resolution(transform: &GeoTransform, moved_origin: Coordinate) -> (r: Option<
    ResolutionStep,
>)
    ensures
        r == resolution_step(*transform, moved_origin, native_resolution(*transform)),
{
    let native = get_resolution_from_geotransform(transform);
    let tolerance: i128 = (UNITS_PER_ONE / 1_000_000) as i128;
    let shift_x: i128 = moved_origin.x as i128 - transform.origin_x as i128;
    let shift_y: i128 = moved_origin.y as i128 - transform.origin_y as i128;
    let geographic = -180 * UNITS_PER_ONE <= transform.origin_x && transform.origin_x <= 180
        * UNITS_PER_ONE && -90 * UNITS_PER_ONE <= transform.origin_y && transform.origin_y <= 90
        * UNITS_PER_ONE && -tolerance < shift_x && shift_x < tolerance && -tolerance < shift_y
        && shift_y < tolerance;
    if !geographic {
        return Some(ResolutionStep::Native(native));
    }
    let east_x: i128 = transform.origin_x as i128 + native.x as i128;
    let south_y: i128 = transform.origin_y as i128 - native.y as i128;
    if east_x > i64::MAX as i128 || south_y < i64::MIN as i128 {
        return None;
    }
    Some(
        ResolutionStep::Measure {
            east: Coordinate { x: east_x as i64, y: transform.origin_y },
            south: Coordinate { x: transform.origin_x, y: south_y as i64 },
        },
    )
}

/// The ground size of a pixel of a raster stored in degrees, from the
/// distances that were measured to the two positions beside its origin.
pub fn measured_resolution(east_distance: u64, south_distance: u64) -> (r: Resolution)
    ensures
        r == (Resolution { x: east_distance, y: south_distance }),
{
    Resolution { x: east_distance, y: south_distance }
}

/// What the header of a raster says of it.
#[derive(Debug)]
pub struct RasterHeader {
    /// The number of columns of the grid.
    pub width: u64,
    /// The number of rows of the grid.
    pub height: u64,
    pub geo_transform: GeoTransform,
    /// The coordinate system that the raster is stored in.
    pub projection: String,
    pub num_bands: u16,
    /// The share of the raster under cloud, in billionths of a percent.
    pub cloud_coverage: Option<u64>,
    /// When the raster was taken, as RFC 3339 text.
    pub start_time: Option<String>,
    pub description: Option<String>,
}

/// The record of the raster at `path` with the given header, footprint and
/// pixel size.
pub open spec fn record_of(
    header: RasterHeader,
    path: Seq<char>,
    filename: Seq<char>,
    collection_id: Seq<char>,
    boundary: Seq<Coordinate>,
    resolution: Resolution,
    timestamp: Timestamp,
) -> RecordModel {
    RecordModel {
        path,
        filename,
        boundary,
        properties: FilePropertiesModel {
            path,
            filename,
            crs: header.projection@,
            resolution,
            num_bands: header.num_bands,
            description: text_of(header.description),
            cloud_coverage: header.cloud_coverage,
            timestamp,
            red_band: None,
            ni_band: None,
        },
        collection_id,
    }
}

/// Why a raster is left out of the catalog.
#[derive(Clone, Copy, Debug, PartialEq, Eq, Structural)]
pub enum IngestionSkip {
    /// The time that the raster carries cannot be read.
    UnreadableTime,
    /// More of the raster is said to be under cloud than there is of it.
    CloudCoverOutOfRange,
    /// The far corner of the grid cannot be stored.
    ExtentOutOfRange,
    /// A position could not be moved to longitude and latitude.
    ReprojectionFailure,
    /// What the extent was moved to is no ring.
    FootprintCollapsed,
    /// The raster is stored in degrees, and a position one pixel from its
    /// origin cannot be stored.
    PixelOutOfRange,
    /// The pixels have no size along an axis.
    NoPixelSize,
}

/// What moving the extent of a raster to longitude and latitude gave.
#[derive(Clone, Debug, PartialEq, Eq)]
pub enum Moved {
    /// A position could not be moved.
    Failed,
    /// The positions of the extent, each moved, in their order.
    To(Vec<Coordinate>),
}

/// What the outcome of moving an extent says.
pub enum MovedModel {
    Failed,
    To(Seq<Coordinate>),
}

impl View for Moved {
    type V = MovedModel;

    open spec fn view(&self) -> MovedModel {
        match self {
            Moved::Failed => MovedModel::Failed,
            Moved::To(ring) => MovedModel::To(ring@),
        }
    }
}

/// What measuring the two positions beside the origin gave.
#[derive(Clone, Copy, Debug, PartialEq, Eq, Structural)]
pub enum Measured {
    /// A position could not be moved to longitude and latitude.
    Failed,
    /// The great-circle distances from the moved origin to the two moved
    /// positions, in billionths of a metre.
    Distances { east: u64, south: u64 },
}

/// What is to be done next with a raster, or what became of it.
#[derive(Debug)]
pub enum IngestStep {
    /// The positions of this extent are to be moved to longitude and
    /// latitude.
    Reproject(Polygon),
    /// The raster is stored in degrees. The positions `east` and `south`
    /// are to be moved to longitude and latitude, and their great-circle
    /// distances from `origin`, which is moved already, are to be measured.
    Measure { origin: Coordinate, east: Coordinate, south: Coordinate },
    /// The raster is cataloged.
    Cataloged(ImageryFile),
    /// The raster is left out.
    Skipped(IngestionSkip),
}

/// What a step says.
pub enum StepModel {
    Reproject(Seq<Coordinate>),
    Measure { origin: Coordinate, east: Coordinate, south: Coordinate },
    Cataloged(RecordModel),
    Skipped(IngestionSkip),
}

impl View for IngestStep {
    type V = StepModel;

    open spec fn view(&self) -> StepModel {
        match self {
            IngestStep::Reproject(extent) => StepModel::Reproject(extent@),
            IngestStep::Measure { origin, east, south } => StepModel::Measure {
                origin: *origin,
                east: *east,
                south: *south,
            },
            IngestStep::Cataloged(file) => StepModel::Cataloged(file@),
            IngestStep::Skipped(skip) => StepModel::Skipped(*skip),
        }
    }
}

/// Why a raster is left out for what its header says alone, if it is.
pub open spec fn header_fault(header: RasterHeader) -> Option<IngestionSkip> {
    if instant_of(text_of(header.start_time)) is None {
        Some(IngestionSkip::UnreadableTime)
    } else if header.cloud_coverage is Some && header.cloud_coverage->Some_0 > full_cloud_cover() {
        Some(IngestionSkip::CloudCoverOutOfRange)
    } else if !fits(extent_end_x(header.width, header.geo_transform)) || !fits(
        extent_end_y(header.height, header.geo_transform),
    ) {
        Some(IngestionSkip::ExtentOutOfRange)
    } else {
        None
    }
}

/// What becomes of a raster whose footprint and pixel size are known: it
/// is cataloged, unless its pixels have no size.
pub open spec fn cataloged(
    header: RasterHeader,
    path: Seq<char>,
    filename: Seq<char>,
    collection_id: Seq<char>,
    boundary: Seq<Coordinate>,
    resolution: Resolution,
) -> StepModel {
    if resolution.is_positive() {
        StepModel::Cataloged(
            record_of(
                header,
                path,
                filename,
                collection_id,
                boundary,
                resolution,
                instant_of(text_of(header.start_time))->Some_0,
            ),
        )
    } else {
        StepModel::Skipped(IngestionSkip::NoPixelSize)
    }
}

/// The next step with a raster, given what was done for it so far.
///
/// What the header says is looked at first. Then the extent is to be
/// moved; what it is moved to, closed, is the footprint. The extent starts
/// at the origin of the grid, so the first of the moved positions is where
/// the origin lands: that place decides whether the pixels are measured on
/// the ground; where they are not, or once they are, the raster is
/// cataloged.
pub open spec fn ingest_step(
    header: RasterHeader,
    path: Seq<char>,
    filename: Seq<char>,
    collection_id: Seq<char>,
    moved: Option<MovedModel>,
    measured: Option<Measured>,
) -> StepModel {
    match header_fault(header) {
        Some(skip) => StepModel::Skipped(skip),
        None => match moved {
            None => StepModel::Reproject(
                extent_of(header.width, header.height, header.geo_transform),
            ),
            Some(MovedModel::Failed) => StepModel::Skipped(IngestionSkip::ReprojectionFailure),
            Some(MovedModel::To(ring)) => if !is_ring(close_ring(ring)) {
                StepModel::Skipped(IngestionSkip::FootprintCollapsed)
            } else {
                match resolution_step(
                    header.geo_transform,
                    ring[0],
                    native_resolution(header.geo_transform),
                ) {
                    None => StepModel::Skipped(IngestionSkip::PixelOutOfRange),
                    Some(ResolutionStep::Native(resolution)) => cataloged(
                        header,
                        path,
                        filename,
                        collection_id,
                        close_ring(ring),
                        resolution,
                    ),
                    Some(ResolutionStep::Measure { east, south }) => match measured {
                        None => StepModel::Measure { origin: ring[0], east, south },
                        Some(Measured::Failed) => StepModel::Skipped(
                            IngestionSkip::ReprojectionFailure,
                        ),
                        Some(Measured::Distances { east, south }) => cataloged(
                            header,
                            path,
                            filename,
                            collection_id,
                            close_ring(ring),
                            Resolution { x: east, y: south },
                        ),
                    },
                }
            },
        },
    }
}

/// Catalogs a raster whose footprint and pixel size are known and whose
/// header has no fault.
fn catalog_raster(
    header: &RasterHeader,
    timestamp: Timestamp,
    path: String,
    filename: &str,
    collection_id: &str,
    boundary: Polygon,
    resolution: Resolution,
) -> (r: IngestStep)
    requires
        instant_of(text_of(header.start_time)) == Some(timestamp),
        header.cloud_coverage matches Some(c) ==> c <= full_cloud_cover(),
    ensures
        r@ == cataloged(*header, path@, filename@, collection_id@, boundary@, resolution),
        r matches IngestStep::Cataloged(f) ==> is_valid_record(f@),
{
    if resolution.x == 0 || resolution.y == 0 {
        return IngestStep::Skipped(IngestionSkip::NoPixelSize);
    }
    match ImageryFile::new(
        path,
        filename,
        collection_id,
        boundary,
        header.projection.clone(),
        resolution,
        header.num_bands,
        crate::stac::copy_text(&header.description),
        header.cloud_coverage,
        timestamp,
    ) {
        Some(file) => IngestStep::Cataloged(file),
        None => IngestStep::Skipped(IngestionSkip::NoPixelSize),
    }
}

/// Takes a raster one step towards the catalog. Asked first without
/// outcomes, it says what is to be moved; asked again with what the move
/// gave, it says what is to be measured, if anything; asked with what the
/// measuring gave too, it catalogs the raster. At each step it may leave
/// the raster out instead, and says why.
pub fn ingest(
    header: &RasterHeader,
    path: String,
    filename: &str,
    collection_id: &str,
    moved: Option<Moved>,
    measured: Option<Measured>,
) -> (r: IngestStep)
    ensures
        r@ == ingest_step(
            *header,
            path@,
            filename@,
            collection_id@,
            match moved {
                Some(m) => Some(m@),
                None => None,
            },
            measured,
        ),
        r matches IngestStep::Cataloged(f) ==> is_valid_record(f@),
{
    let start_time: Option<&str> = match &header.start_time {
        Some(t) => Some(t.as_str()),
        None => None,
    };
    let timestamp = match Timestamp::from_source(start_time) {
        Some(t) => t,
        None => {
            return IngestStep::Skipped(IngestionSkip::UnreadableTime);
        },
    };
    match header.cloud_coverage {
        Some(c) => {
            if c > 100 * (UNITS_PER_ONE as u64) {
                return IngestStep::Skipped(IngestionSkip::CloudCoverOutOfRange);
            }
        },
        None => {},
    }
    let extent = match get_extent(header.width, header.height, &header.geo_transform) {
        Some(e) => e,
        None => {
            return IngestStep::Skipped(IngestionSkip::ExtentOutOfRange);
        },
    };
    let ring = match moved {
        None => {
            return IngestStep::Reproject(extent);
        },
        Some(Moved::Failed) => {
            return IngestStep::Skipped(IngestionSkip::ReprojectionFailure);
        },
        Some(Moved::To(ring)) => ring,
    };
    let ghost given = ring@;
    let boundary = match Polygon::new(ring) {
        Some(p) => p,
        None => {
            return IngestStep::Skipped(IngestionSkip::FootprintCollapsed);
        },
    };
    let origin = boundary.exterior()[0];
    proof {
        assert(origin == given[0]);
    }
    let resolution = match get_resolution(&header.geo_transform, origin) {
        None => {
            return IngestStep::Skipped(IngestionSkip::PixelOutOfRange);
        },
        Some(ResolutionStep::Native(resolution)) => resolution,
        Some(ResolutionStep::Measure { east, south }) => match measured {
            None => {
                return IngestStep::Measure { origin, east, south };
            },
            Some(Measured::Failed) => {
                return IngestStep::Skipped(IngestionSkip::ReprojectionFailure);
            },
            Some(Measured::Distances { east, south }) => measured_resolution(east, south),
        },
    };
    catalog_raster(header, timestamp, path, filename, collection_id, boundary, resolution)
}

} // verus!
